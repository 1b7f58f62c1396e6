use asyncritty::LoopState;

#[test]
fn shutdown_request_moves_running_loop_once() {
    let mut state = LoopState::Running;
    assert!(state.is_running());
    assert!(state.request_shutdown());
    assert_eq!(state, LoopState::ShutdownRequested);
    assert!(!state.is_running());

    // A repeated request has no additional effect.
    assert!(!state.request_shutdown());
    assert_eq!(state, LoopState::ShutdownRequested);

    // Stopping is distinct from a shutdown request, and a request after the
    // stop leaves the loop stopped.
    assert!(state.publish_stopped());
    assert_eq!(state, LoopState::Stopped);
    assert!(!state.request_shutdown());
    assert_eq!(state, LoopState::Stopped);
}

#[test]
fn stop_is_published_once() {
    let mut state = LoopState::Running;
    assert!(state.publish_stopped());
    assert!(!state.publish_stopped());
    assert_eq!(state, LoopState::Stopped);
}

#[test]
fn restart_runs_only_a_stopped_loop() {
    let mut state = LoopState::Stopped;
    assert!(state.restart());
    assert_eq!(state, LoopState::Running);
    assert!(!state.restart());
    assert_eq!(state, LoopState::Running);

    // A shutdown requested before the run is preserved by the restart.
    let mut state = LoopState::Running;
    state.request_shutdown();
    assert!(!state.restart());
    assert_eq!(state, LoopState::ShutdownRequested);
}
