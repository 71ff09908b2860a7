use armazem::serving::{on_accept, requests_shutdown, AcceptAction, AcceptEvent, TaskEnd, DRAIN_GRACE_SECS};

#[test]
fn accept_loop_decisions() {
    assert_eq!(on_accept(AcceptEvent::Accepted), AcceptAction::Serve);
    assert_eq!(on_accept(AcceptEvent::AcceptFailed), AcceptAction::KeepAccepting);
    assert_eq!(on_accept(AcceptEvent::ShutdownRequested), AcceptAction::StopAccepting);
    assert_eq!(DRAIN_GRACE_SECS, 10);
}

#[test]
fn either_server_ending_shuts_down() {
    assert!(requests_shutdown(TaskEnd::DataPlane));
    assert!(requests_shutdown(TaskEnd::Health));
    assert!(!requests_shutdown(TaskEnd::Signals));
}
