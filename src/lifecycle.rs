//! The daemon's lifecycle as a state machine. The main path and the signal
//! handler both report what happened as an [`Event`]; [`Daemon::step`] answers
//! with the one [`Action`] to perform next. The caller delivers events one at
//! a time (under a lock where two units of execution share the machine).

use vstd::prelude::*;

verus! {

pub const EXIT_SUCCESS: i32 = 0;

pub const EXIT_FAILURE: i32 = 1;

/// Where the listening socket came from.
#[derive(Debug, PartialEq, Eq)]
pub enum SocketOrigin {
    /// Handed over by a supervisor: no filesystem path belongs to this process.
    Inherited,
    /// Bound by this process at `path`, which it must remove exactly once.
    SelfBound { path: String },
}

/// How far the main path has come.
#[derive(Debug, Clone, Copy, PartialEq, Eq, Structural)]
pub enum Phase {
    /// Waiting for the configuration.
    Loading,
    /// Waiting to learn whether a supervisor handed over a socket.
    Resolving,
    /// Waiting for the bind of the socket path.
    Binding,
    /// Waiting for the signal handler to be armed.
    Arming,
    /// The serve loop runs.
    Serving,
    /// The main path is done; cleanup may still be outstanding.
    Draining,
    /// The process exits with `code`.
    Exited { code: i32 },
}

/// Progress of the single removal of an owned socket path.
#[derive(Debug, Clone, Copy, PartialEq, Eq, Structural)]
pub enum Cleanup {
    /// Nobody has taken on the removal.
    Idle,
    /// One unit of execution was told to remove the path.
    Claimed,
    /// The path is gone.
    Removed,
    /// The removal failed for a reason other than the path being absent.
    Failed,
}

/// What an attempt to remove the socket path came to.
#[derive(Debug, Clone, Copy, PartialEq, Eq, Structural)]
pub enum RemovalOutcome {
    Removed,
    AlreadyAbsent,
    Failed,
}

/// Something that happened, reported by the main path or the signal handler.
#[derive(Debug, Clone, Copy, PartialEq, Eq, Structural)]
pub enum Event {
    /// The configuration was loaded, or could not be read or parsed.
    ConfigLoaded { ok: bool },
    /// Whether a supervisor handed over a listening socket.
    Handoff { found: bool },
    /// Whether binding the socket path succeeded.
    Bound { ok: bool },
    /// The signal handler is installed and waiting.
    Armed,
    /// The signal handler could not be installed.
    ArmFailed,
    /// A termination signal arrived.
    Signal,
    /// The serve loop returned, normally or with an error.
    ServeReturned { ok: bool },
    /// The removal that an action asked for has been attempted.
    RemovalDone { outcome: RemovalOutcome },
}

/// What to do next.
#[derive(Debug, PartialEq, Eq)]
pub enum Action {
    /// Nothing on this unit of execution; the main path waits for the exit.
    Nothing,
    /// Look for a socket handed over by a supervisor.
    TryHandoff,
    /// Bind a new listener at `path`.
    Bind { path: String },
    /// Start the signal handler, which owns `owned` for cleanup.
    Arm { owned: Option<String> },
    /// Run the serve loop.
    Serve,
    /// Stop the serve loop, and remove `remove` if present.
    Shutdown { remove: Option<String> },
    /// Remove the owned socket path on the normal exit path.
    Remove { path: String },
    /// Exit the process with `code`.
    Exit { code: i32 },
}

/// The state of one daemon process.
#[derive(Debug)]
pub struct Daemon {
    pub phase: Phase,
    /// The path to bind when no socket is handed over.
    pub socket: String,
    pub origin: Option<SocketOrigin>,
    /// Whether a termination signal has been received.
    pub stop: bool,
    pub cleanup: Cleanup,
    /// Whether the main path failed after the socket was set up.
    pub failed: bool,
}

pub open spec fn initial(socket: String) -> Daemon {
    Daemon {
        phase: Phase::Loading,
        socket,
        origin: None,
        stop: false,
        cleanup: Cleanup::Idle,
        failed: false,
    }
}

pub open spec fn exit_with(s: Daemon, code: i32) -> (Daemon, Action) {
    (Daemon { phase: Phase::Exited { code }, ..s }, Action::Exit { code })
}

/// Once the main path is done: remove the owned path unless a removal was
/// already taken on, and exit once no removal is outstanding.
pub open spec fn settle(s: Daemon) -> (Daemon, Action) {
    if s.phase != Phase::Draining {
        (s, Action::Nothing)
    } else {
        match s.origin {
            Some(SocketOrigin::SelfBound { path }) => match s.cleanup {
                Cleanup::Idle => (Daemon { cleanup: Cleanup::Claimed, ..s }, Action::Remove { path }),
                Cleanup::Claimed => (s, Action::Nothing),
                Cleanup::Removed => exit_with(
                    s,
                    if s.failed {
                        EXIT_FAILURE
                    } else {
                        EXIT_SUCCESS
                    },
                ),
                Cleanup::Failed => exit_with(s, EXIT_FAILURE),
            },
            _ => exit_with(
                s,
                if s.failed {
                    EXIT_FAILURE
                } else {
                    EXIT_SUCCESS
                },
            ),
        }
    }
}

/// Ends the main path without serving.
pub open spec fn drain(s: Daemon) -> (Daemon, Action) {
    settle(Daemon { phase: Phase::Draining, ..s })
}

/// The answer to a termination signal: stop serving, and take on the removal
/// of the owned path if nobody has. A second signal changes nothing.
pub open spec fn on_signal(s: Daemon) -> (Daemon, Action) {
    if s.stop {
        (s, Action::Nothing)
    } else {
        match s.origin {
            Some(SocketOrigin::SelfBound { path }) => if s.cleanup == Cleanup::Idle {
                (
                    Daemon { stop: true, cleanup: Cleanup::Claimed, ..s },
                    Action::Shutdown { remove: Some(path) },
                )
            } else {
                (Daemon { stop: true, ..s }, Action::Shutdown { remove: None })
            },
            _ => (Daemon { stop: true, ..s }, Action::Shutdown { remove: None }),
        }
    }
}

/// The state after `e`, and the action it calls for.
pub open spec fn next(s: Daemon, e: Event) -> (Daemon, Action) {
    if s.phase is Exited {
        (s, Action::Nothing)
    } else {
        match e {
            Event::Signal => on_signal(s),
            Event::RemovalDone { outcome } => if s.cleanup == Cleanup::Claimed {
                settle(
                    Daemon {
                        cleanup: if outcome == RemovalOutcome::Failed {
                            Cleanup::Failed
                        } else {
                            Cleanup::Removed
                        },
                        ..s
                    },
                )
            } else {
                (s, Action::Nothing)
            },
            Event::ConfigLoaded { ok } => if s.phase != Phase::Loading {
                (s, Action::Nothing)
            } else if !ok {
                exit_with(s, EXIT_FAILURE)
            } else if s.stop {
                drain(s)
            } else {
                (Daemon { phase: Phase::Resolving, ..s }, Action::TryHandoff)
            },
            Event::Handoff { found } => if s.phase != Phase::Resolving {
                (s, Action::Nothing)
            } else if found {
                let t = Daemon { origin: Some(SocketOrigin::Inherited), ..s };
                if s.stop {
                    drain(t)
                } else {
                    (Daemon { phase: Phase::Arming, ..t }, Action::Arm { owned: None })
                }
            } else if s.stop {
                drain(s)
            } else {
                (Daemon { phase: Phase::Binding, ..s }, Action::Bind { path: s.socket })
            },
            Event::Bound { ok } => if s.phase != Phase::Binding {
                (s, Action::Nothing)
            } else if !ok {
                exit_with(s, EXIT_FAILURE)
            } else {
                let t = Daemon { origin: Some(SocketOrigin::SelfBound { path: s.socket }), ..s };
                if s.stop {
                    drain(t)
                } else {
                    (Daemon { phase: Phase::Arming, ..t }, Action::Arm { owned: Some(s.socket) })
                }
            },
            Event::Armed => if s.phase != Phase::Arming {
                (s, Action::Nothing)
            } else if s.stop {
                drain(s)
            } else {
                (Daemon { phase: Phase::Serving, ..s }, Action::Serve)
            },
            Event::ArmFailed => if s.phase != Phase::Arming {
                (s, Action::Nothing)
            } else {
                drain(Daemon { failed: true, ..s })
            },
            Event::ServeReturned { ok } => if s.phase != Phase::Serving {
                (s, Action::Nothing)
            } else {
                settle(Daemon { phase: Phase::Draining, failed: !ok, ..s })
            },
        }
    }
}

impl Daemon {
    /// A daemon that has done nothing yet and would bind `socket`.
    pub fn new(socket: String) -> (r: Daemon)
        ensures
            r == initial(socket),
    {
        Daemon {
            phase: Phase::Loading,
            socket,
            origin: None,
            stop: false,
            cleanup: Cleanup::Idle,
            failed: false,
        }
    }

    fn exit(&mut self, code: i32) -> (r: Action)
        ensures
            (*final(self), r) == exit_with(*old(self), code),
    {
        self.phase = Phase::Exited { code };
        Action::Exit { code }
    }

    fn settle(&mut self) -> (r: Action)
        ensures
            (*final(self), r) == settle(*old(self)),
    {
        if self.phase != Phase::Draining {
            return Action::Nothing;
        }
        let owned = match &self.origin {
            Some(SocketOrigin::SelfBound { path }) => Some(path.clone()),
            _ => None,
        };
        match owned {
            Some(path) => match self.cleanup {
                Cleanup::Idle => {
                    self.cleanup = Cleanup::Claimed;
                    Action::Remove { path }
                },
                Cleanup::Claimed => Action::Nothing,
                Cleanup::Removed => {
                    let code = if self.failed {
                        EXIT_FAILURE
                    } else {
                        EXIT_SUCCESS
                    };
                    self.exit(code)
                },
                Cleanup::Failed => self.exit(EXIT_FAILURE),
            },
            None => {
                let code = if self.failed {
                    EXIT_FAILURE
                } else {
                    EXIT_SUCCESS
                };
                self.exit(code)
            },
        }
    }

    fn drain(&mut self) -> (r: Action)
        ensures
            (*final(self), r) == drain(*old(self)),
    {
        self.phase = Phase::Draining;
        self.settle()
    }

    fn on_signal(&mut self) -> (r: Action)
        ensures
            (*final(self), r) == on_signal(*old(self)),
    {
        if self.stop {
            return Action::Nothing;
        }
        self.stop = true;
        let owned = match &self.origin {
            Some(SocketOrigin::SelfBound { path }) => Some(path.clone()),
            _ => None,
        };
        match owned {
            Some(path) => if self.cleanup == Cleanup::Idle {
                self.cleanup = Cleanup::Claimed;
                Action::Shutdown { remove: Some(path) }
            } else {
                Action::Shutdown { remove: None }
            },
            None => Action::Shutdown { remove: None },
        }
    }

    /// Takes in one event and returns what to do next.
    pub fn step(&mut self, e: Event) -> (r: Action)
        ensures
            (*final(self), r) == next(*old(self), e),
    {
        if let Phase::Exited { .. } = self.phase {
            return Action::Nothing;
        }
        match e {
            Event::Signal => self.on_signal(),
            Event::RemovalDone { outcome } => {
                if self.cleanup != Cleanup::Claimed {
                    return Action::Nothing;
                }
                self.cleanup =
                    if outcome == RemovalOutcome::Failed {
                        Cleanup::Failed
                    } else {
                        Cleanup::Removed
                    };
                self.settle()
            },
            Event::ConfigLoaded { ok } => {
                if self.phase != Phase::Loading {
                    Action::Nothing
                } else if !ok {
                    self.exit(EXIT_FAILURE)
                } else if self.stop {
                    self.drain()
                } else {
                    self.phase = Phase::Resolving;
                    Action::TryHandoff
                }
            },
            Event::Handoff { found } => {
                if self.phase != Phase::Resolving {
                    Action::Nothing
                } else if found {
                    self.origin = Some(SocketOrigin::Inherited);
                    if self.stop {
                        self.drain()
                    } else {
                        self.phase = Phase::Arming;
                        Action::Arm { owned: None }
                    }
                } else if self.stop {
                    self.drain()
                } else {
                    self.phase = Phase::Binding;
                    Action::Bind { path: self.socket.clone() }
                }
            },
            Event::Bound { ok } => {
                if self.phase != Phase::Binding {
                    Action::Nothing
                } else if !ok {
                    self.exit(EXIT_FAILURE)
                } else {
                    self.origin = Some(SocketOrigin::SelfBound { path: self.socket.clone() });
                    if self.stop {
                        self.drain()
                    } else {
                        self.phase = Phase::Arming;
                        Action::Arm { owned: Some(self.socket.clone()) }
                    }
                }
            },
            Event::Armed => {
                if self.phase != Phase::Arming {
                    Action::Nothing
                } else if self.stop {
                    self.drain()
                } else {
                    self.phase = Phase::Serving;
                    Action::Serve
                }
            },
            Event::ArmFailed => {
                if self.phase != Phase::Arming {
                    Action::Nothing
                } else {
                    self.failed = true;
                    self.drain()
                }
            },
            Event::ServeReturned { ok } => {
                if self.phase != Phase::Serving {
                    Action::Nothing
                } else {
                    self.phase = Phase::Draining;
                    self.failed = !ok;
                    self.settle()
                }
            },
        }
    }
}

} // verus!
