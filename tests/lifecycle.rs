use shpool_daemon::lifecycle::{
    Action, Cleanup, Daemon, Event, Phase, RemovalOutcome, SocketOrigin, EXIT_FAILURE,
    EXIT_SUCCESS,
};

fn sock() -> String {
    "/tmp/test.sock".to_string()
}

/// Drives a fresh daemon up to a running serve loop on a path it bound itself.
fn serving_self_bound() -> Daemon {
    let mut d = Daemon::new(sock());
    assert_eq!(d.step(Event::ConfigLoaded { ok: true }), Action::TryHandoff);
    assert_eq!(d.step(Event::Handoff { found: false }), Action::Bind { path: sock() });
    assert_eq!(d.step(Event::Bound { ok: true }), Action::Arm { owned: Some(sock()) });
    assert_eq!(d.step(Event::Armed), Action::Serve);
    d
}

#[test]
fn self_bound_sigterm_removes_socket_and_exits_zero() {
    let mut d = serving_self_bound();
    assert_eq!(d.origin, Some(SocketOrigin::SelfBound { path: sock() }));
    assert_eq!(d.step(Event::Signal), Action::Shutdown { remove: Some(sock()) });
    assert_eq!(d.step(Event::RemovalDone { outcome: RemovalOutcome::Removed }), Action::Nothing);
    assert_eq!(d.step(Event::ServeReturned { ok: true }), Action::Exit { code: EXIT_SUCCESS });
    assert_eq!(d.phase, Phase::Exited { code: 0 });
}

#[test]
fn self_bound_normal_return_removes_socket() {
    let mut d = serving_self_bound();
    assert_eq!(d.step(Event::ServeReturned { ok: true }), Action::Remove { path: sock() });
    assert_eq!(d.step(Event::RemovalDone { outcome: RemovalOutcome::Removed }), Action::Exit {
        code: 0,
    });
}

#[test]
fn signal_after_main_path_claimed_removal_removes_nothing() {
    let mut d = serving_self_bound();
    assert_eq!(d.step(Event::ServeReturned { ok: true }), Action::Remove { path: sock() });
    assert_eq!(d.step(Event::Signal), Action::Shutdown { remove: None });
    assert_eq!(d.step(Event::RemovalDone { outcome: RemovalOutcome::AlreadyAbsent }), Action::Exit {
        code: 0,
    });
}

#[test]
fn signal_first_then_serve_return_waits_for_removal() {
    let mut d = serving_self_bound();
    assert_eq!(d.step(Event::Signal), Action::Shutdown { remove: Some(sock()) });
    assert_eq!(d.step(Event::ServeReturned { ok: true }), Action::Nothing);
    assert_eq!(d.cleanup, Cleanup::Claimed);
    assert_eq!(d.step(Event::RemovalDone { outcome: RemovalOutcome::Removed }), Action::Exit {
        code: 0,
    });
}

#[test]
fn second_signal_is_ignored() {
    let mut d = serving_self_bound();
    assert_eq!(d.step(Event::Signal), Action::Shutdown { remove: Some(sock()) });
    assert_eq!(d.step(Event::Signal), Action::Nothing);
}

#[test]
fn failed_removal_exits_nonzero() {
    let mut d = serving_self_bound();
    assert_eq!(d.step(Event::ServeReturned { ok: true }), Action::Remove { path: sock() });
    assert_eq!(d.step(Event::RemovalDone { outcome: RemovalOutcome::Failed }), Action::Exit {
        code: EXIT_FAILURE,
    });
}

#[test]
fn serve_error_cleans_up_then_exits_nonzero() {
    let mut d = serving_self_bound();
    assert_eq!(d.step(Event::ServeReturned { ok: false }), Action::Remove { path: sock() });
    assert_eq!(d.step(Event::RemovalDone { outcome: RemovalOutcome::Removed }), Action::Exit {
        code: EXIT_FAILURE,
    });
}

#[test]
fn supervisor_handoff_never_touches_a_path() {
    let mut d = Daemon::new(sock());
    assert_eq!(d.step(Event::ConfigLoaded { ok: true }), Action::TryHandoff);
    assert_eq!(d.step(Event::Handoff { found: true }), Action::Arm { owned: None });
    assert_eq!(d.origin, Some(SocketOrigin::Inherited));
    assert_eq!(d.step(Event::Armed), Action::Serve);
    assert_eq!(d.step(Event::Signal), Action::Shutdown { remove: None });
    assert_eq!(d.step(Event::Signal), Action::Nothing);
    assert_eq!(d.step(Event::ServeReturned { ok: true }), Action::Exit { code: 0 });
    assert_eq!(d.cleanup, Cleanup::Idle);
}

#[test]
fn malformed_configuration_exits_before_binding() {
    let mut d = Daemon::new(sock());
    assert_eq!(d.step(Event::ConfigLoaded { ok: false }), Action::Exit { code: EXIT_FAILURE });
    assert_eq!(d.step(Event::Handoff { found: false }), Action::Nothing);
    assert_eq!(d.step(Event::Armed), Action::Nothing);
    assert_eq!(d.origin, None);
}

#[test]
fn bind_failure_exits_without_arming_or_serving() {
    let mut d = Daemon::new(sock());
    d.step(Event::ConfigLoaded { ok: true });
    assert_eq!(d.step(Event::Handoff { found: false }), Action::Bind { path: sock() });
    assert_eq!(d.step(Event::Bound { ok: false }), Action::Exit { code: EXIT_FAILURE });
    assert_eq!(d.step(Event::Armed), Action::Nothing);
    assert_eq!(d.step(Event::ServeReturned { ok: true }), Action::Nothing);
}

#[test]
fn signal_before_serving_skips_the_serve_loop() {
    let mut d = Daemon::new(sock());
    d.step(Event::ConfigLoaded { ok: true });
    d.step(Event::Handoff { found: false });
    assert_eq!(d.step(Event::Bound { ok: true }), Action::Arm { owned: Some(sock()) });
    assert_eq!(d.step(Event::Signal), Action::Shutdown { remove: Some(sock()) });
    assert_eq!(d.step(Event::Armed), Action::Nothing);
    assert_eq!(d.step(Event::RemovalDone { outcome: RemovalOutcome::Removed }), Action::Exit {
        code: 0,
    });
}

#[test]
fn signal_while_binding_removes_the_new_path_on_the_main_path() {
    let mut d = Daemon::new(sock());
    d.step(Event::ConfigLoaded { ok: true });
    d.step(Event::Handoff { found: false });
    assert_eq!(d.step(Event::Signal), Action::Shutdown { remove: None });
    assert_eq!(d.step(Event::Bound { ok: true }), Action::Remove { path: sock() });
    assert_eq!(d.step(Event::RemovalDone { outcome: RemovalOutcome::Removed }), Action::Exit {
        code: 0,
    });
}

#[test]
fn signal_while_resolving_never_binds() {
    let mut d = Daemon::new(sock());
    d.step(Event::ConfigLoaded { ok: true });
    assert_eq!(d.step(Event::Signal), Action::Shutdown { remove: None });
    assert_eq!(d.step(Event::Handoff { found: false }), Action::Exit { code: 0 });
}

#[test]
fn arming_failure_removes_bound_path_and_exits_nonzero() {
    let mut d = Daemon::new(sock());
    d.step(Event::ConfigLoaded { ok: true });
    d.step(Event::Handoff { found: false });
    d.step(Event::Bound { ok: true });
    assert_eq!(d.step(Event::ArmFailed), Action::Remove { path: sock() });
    assert_eq!(d.step(Event::RemovalDone { outcome: RemovalOutcome::Removed }), Action::Exit {
        code: EXIT_FAILURE,
    });
}
