//! Whole runs of the lifecycle machine, and what holds of every run that
//! starts from a fresh daemon.

use vstd::prelude::*;
use crate::lifecycle::{
    initial, next, Action, Cleanup, Daemon, Event, Phase, SocketOrigin, EXIT_FAILURE,
    EXIT_SUCCESS,
};

verus! {

/// The state after `events`, and the actions they called for, in order.
pub open spec fn run(s: Daemon, events: Seq<Event>) -> (Daemon, Seq<Action>)
    decreases events.len(),
{
    if events.len() == 0 {
        (s, Seq::empty())
    } else {
        let (t, acts) = run(s, events.drop_last());
        let (u, a) = next(t, events.last());
        (u, acts.push(a))
    }
}

/// How many of `acts` satisfy `p`.
pub open spec fn count(acts: Seq<Action>, p: spec_fn(Action) -> bool) -> nat
    decreases acts.len(),
{
    if acts.len() == 0 {
        0
    } else {
        count(acts.drop_last(), p) + if p(acts.last()) {
            1nat
        } else {
            0nat
        }
    }
}

pub open spec fn is_bind(a: Action) -> bool {
    a is Bind
}

/// An action that removes a filesystem path.
pub open spec fn is_removal(a: Action) -> bool {
    a is Remove || (a is Shutdown && a->Shutdown_remove is Some)
}

pub open spec fn is_arm(a: Action) -> bool {
    a is Arm
}

pub open spec fn is_serve(a: Action) -> bool {
    a is Serve
}

/// The filesystem path that an action touches, if any.
pub open spec fn path_of(a: Action) -> Option<String> {
    match a {
        Action::Bind { path } => Some(path),
        Action::Remove { path } => Some(path),
        Action::Shutdown { remove } => remove,
        _ => None,
    }
}

/// Every path that `acts` touch is `p`.
pub open spec fn only_touches(acts: Seq<Action>, p: String) -> bool {
    forall|i: int| 0 <= i < acts.len() ==> #[trigger] path_of(acts[i]) is None || path_of(acts[i])
        == Some(p)
}

pub open spec fn before_binding(ph: Phase) -> bool {
    ph == Phase::Loading || ph == Phase::Resolving
}

/// What holds of every state reached from `initial(p)` together with the
/// actions taken on the way.
pub open spec fn reachable_inv(p: String, s: Daemon, acts: Seq<Action>) -> bool {
    &&& s.socket == p
    &&& only_touches(acts, p)
    &&& count(acts, |a| is_bind(a)) <= 1
    &&& count(acts, |a| is_removal(a)) == if s.cleanup == Cleanup::Idle {
        0nat
    } else {
        1nat
    }
    &&& (before_binding(s.phase) || s.phase == Phase::Binding) ==> {
        &&& s.origin is None
        &&& count(acts, |a| is_arm(a)) == 0
        &&& count(acts, |a| is_serve(a)) == 0
    }
    &&& s.phase == Phase::Arming ==> count(acts, |a| is_serve(a)) == 0
    &&& before_binding(s.phase) ==> count(acts, |a| is_bind(a)) == 0
    &&& s.phase == Phase::Binding ==> count(acts, |a| is_bind(a)) == 1
    &&& s.origin is None ==> s.cleanup == Cleanup::Idle
    &&& s.origin == Some(SocketOrigin::Inherited) ==> count(acts, |a| is_bind(a)) == 0
        && s.cleanup == Cleanup::Idle
    &&& s.origin is Some && s.origin != Some(SocketOrigin::Inherited) ==> {
        &&& s.origin == Some(SocketOrigin::SelfBound { path: p })
        &&& count(acts, |a| is_bind(a)) == 1
    }
    &&& (s.phase is Exited && s.origin is Some && s.origin != Some(SocketOrigin::Inherited)) ==> {
        &&& s.cleanup == Cleanup::Removed || s.cleanup == Cleanup::Failed
        &&& s.phase == (Phase::Exited { code: EXIT_SUCCESS }) ==> s.cleanup == Cleanup::Removed
    }
}

proof fn lemma_count_push(acts: Seq<Action>, a: Action, p: spec_fn(Action) -> bool)
    ensures
        count(acts.push(a), p) == count(acts, p) + if p(a) {
            1nat
        } else {
            0nat
        },
{
    assert(acts.push(a).drop_last() =~= acts);
}

proof fn lemma_step_inv(p: String, s: Daemon, acts: Seq<Action>, e: Event)
    requires
        reachable_inv(p, s, acts),
    ensures
        reachable_inv(p, next(s, e).0, acts.push(next(s, e).1)),
{
    let a = next(s, e).1;
    lemma_count_push(acts, a, |a| is_bind(a));
    lemma_count_push(acts, a, |a| is_removal(a));
    lemma_count_push(acts, a, |a| is_arm(a));
    lemma_count_push(acts, a, |a| is_serve(a));
    let t = acts.push(a);
    assert forall|i: int| 0 <= i < t.len() implies #[trigger] path_of(t[i]) is None || path_of(
        t[i],
    ) == Some(p) by {
        if i < acts.len() {
            assert(t[i] == acts[i]);
        }
    }
}

proof fn lemma_run_inv(p: String, events: Seq<Event>)
    ensures
        reachable_inv(p, run(initial(p), events).0, run(initial(p), events).1),
    decreases events.len(),
{
    if events.len() == 0 {
        let acts = Seq::<Action>::empty();
        assert(count(acts, |a| is_bind(a)) == 0);
        assert(count(acts, |a| is_removal(a)) == 0);
        assert(count(acts, |a| is_arm(a)) == 0);
        assert(count(acts, |a| is_serve(a)) == 0);
    } else {
        lemma_run_inv(p, events.drop_last());
        let (t, acts) = run(initial(p), events.drop_last());
        lemma_step_inv(p, t, acts, events.last());
    }
}

/// Before the serve loop has begun.
pub open spec fn before_serving(ph: Phase) -> bool {
    before_binding(ph) || ph == Phase::Binding || ph == Phase::Arming
}

proof fn lemma_stopped_never_serves(s: Daemon, events: Seq<Event>)
    requires
        s.stop,
        !(s.phase is Exited) ==> before_serving(s.phase) || s.phase == Phase::Draining,
    ensures
        run(s, events).0.stop,
        !(run(s, events).0.phase is Exited) ==> before_serving(run(s, events).0.phase)
            || run(s, events).0.phase == Phase::Draining,
        count(run(s, events).1, |a| is_serve(a)) == 0,
    decreases events.len(),
{
    if events.len() == 0 {
        assert(count(Seq::<Action>::empty(), |a| is_serve(a)) == 0);
    } else {
        lemma_stopped_never_serves(s, events.drop_last());
        let (t, acts) = run(s, events.drop_last());
        lemma_count_push(acts, next(t, events.last()).1, |a| is_serve(a));
    }
}

proof fn lemma_exited_is_final(s: Daemon, events: Seq<Event>)
    requires
        s.phase is Exited,
    ensures
        run(s, events).0 == s,
        forall|i: int| 0 <= i < run(s, events).1.len() ==> run(s, events).1[i] == Action::Nothing,
        count(run(s, events).1, |a| is_arm(a)) == 0,
        count(run(s, events).1, |a| is_serve(a)) == 0,
    decreases events.len(),
{
    if events.len() == 0 {
        assert(count(Seq::<Action>::empty(), |a| is_arm(a)) == 0);
        assert(count(Seq::<Action>::empty(), |a| is_serve(a)) == 0);
    } else {
        lemma_exited_is_final(s, events.drop_last());
        let acts = run(s, events.drop_last()).1;
        lemma_count_push(acts, Action::Nothing, |a| is_arm(a));
        lemma_count_push(acts, Action::Nothing, |a| is_serve(a));
        let t = acts.push(Action::Nothing);
        assert forall|i: int| 0 <= i < t.len() implies t[i] == Action::Nothing by {
            if i < acts.len() {
                assert(t[i] == acts[i]);
            }
        }
    }
}

/// Whatever happens, a daemon binds its socket path at most once; it has bound
/// it exactly when the socket is its own, and never when a supervisor handed
/// one over.
pub proof fn socket_bound_at_most_once(p: String, events: Seq<Event>)
    ensures
        ({
            let (s, acts) = run(initial(p), events);
            &&& count(acts, |a| is_bind(a)) <= 1
            &&& s.origin == Some(SocketOrigin::Inherited) ==> count(acts, |a| is_bind(a)) == 0
            &&& (s.origin is Some && s.origin != Some(SocketOrigin::Inherited)) ==> s.origin
                == Some(SocketOrigin::SelfBound { path: p }) && count(acts, |a| is_bind(a)) == 1
        }),
{
    lemma_run_inv(p, events);
}

/// Once the daemon is resolving its socket (and no signal has come), it binds
/// its path if and only if no supervisor handed a socket over.
pub proof fn binds_exactly_without_handoff(p: String, events: Seq<Event>, found: bool)
    requires
        run(initial(p), events).0.phase == Phase::Resolving,
        !run(initial(p), events).0.stop,
    ensures
        ({
            let (t, a) = next(run(initial(p), events).0, Event::Handoff { found });
            &&& (a is Bind) == !found
            &&& a is Bind ==> a == (Action::Bind { path: p })
            &&& found ==> t.origin == Some(SocketOrigin::Inherited)
        }),
{
    lemma_run_inv(p, events);
}

/// Whatever happens, including a signal racing the normal exit, the owned
/// socket path is handed out for removal at most once, and no other path is
/// ever touched. A daemon that owned its path and has exited took on its
/// removal exactly once, and exits with success only if the path is gone.
pub proof fn owned_path_removed_once(p: String, events: Seq<Event>)
    ensures
        ({
            let (s, acts) = run(initial(p), events);
            &&& count(acts, |a| is_removal(a)) <= 1
            &&& only_touches(acts, p)
            &&& (s.phase is Exited && s.origin == Some(SocketOrigin::SelfBound { path: p })) ==> {
                &&& count(acts, |a| is_removal(a)) == 1
                &&& s.cleanup == Cleanup::Removed || s.cleanup == Cleanup::Failed
                &&& s.phase == (Phase::Exited { code: EXIT_SUCCESS }) ==> s.cleanup
                    == Cleanup::Removed
            }
        }),
{
    lemma_run_inv(p, events);
}

/// Whatever happens, a daemon whose socket a supervisor handed over neither
/// creates nor removes any filesystem path.
pub proof fn inherited_socket_leaves_paths_alone(p: String, events: Seq<Event>)
    ensures
        ({
            let (s, acts) = run(initial(p), events);
            s.origin == Some(SocketOrigin::Inherited) ==> count(acts, |a| is_bind(a)) == 0
                && count(acts, |a| is_removal(a)) == 0
        }),
{
    lemma_run_inv(p, events);
}

/// A termination signal that arrives before the serve loop has begun is
/// answered with a shutdown, and whatever follows, serving never starts.
pub proof fn early_signal_prevents_serving(p: String, before: Seq<Event>, after: Seq<Event>)
    requires
        before_serving(run(initial(p), before).0.phase),
    ensures
        ({
            let (s, acts) = run(initial(p), before);
            let (t, a) = next(s, Event::Signal);
            &&& count(acts, |a| is_serve(a)) == 0
            &&& t.stop
            &&& s.stop || a is Shutdown
            &&& count(run(t, after).1, |a| is_serve(a)) == 0
        }),
{
    lemma_run_inv(p, before);
    let s = run(initial(p), before).0;
    lemma_stopped_never_serves(next(s, Event::Signal).0, after);
}

/// A failed bind ends the daemon with a failure code at once: the signal
/// handler is never armed and the serve loop never runs.
pub proof fn bind_failure_exits(p: String, before: Seq<Event>, after: Seq<Event>)
    requires
        run(initial(p), before).0.phase == Phase::Binding,
    ensures
        ({
            let (s, acts) = run(initial(p), before);
            let (t, a) = next(s, Event::Bound { ok: false });
            &&& a == (Action::Exit { code: EXIT_FAILURE })
            &&& t.phase == (Phase::Exited { code: EXIT_FAILURE })
            &&& count(acts, |a| is_arm(a)) == 0
            &&& count(acts, |a| is_serve(a)) == 0
            &&& count(run(t, after).1, |a| is_arm(a)) == 0
            &&& count(run(t, after).1, |a| is_serve(a)) == 0
        }),
{
    lemma_run_inv(p, before);
    let s = run(initial(p), before).0;
    lemma_exited_is_final(next(s, Event::Bound { ok: false }).0, after);
}

} // verus!
