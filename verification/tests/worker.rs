use hyper_sync::registry::RegistryScan;
use hyper_sync::worker::{
    begin_capture, capture_outcome, end_capture, on_acquire, on_release, on_stop_request, reselect_after_stop,
    retry_pending_acquire, AcquireStep, CaptureOutcome, WorkerFlags, WorkerState,
};

#[test]
fn acquire_while_running_is_coalesced() {
    let mut w = WorkerFlags::new();
    assert_eq!(w.state, WorkerState::Idle);
    assert_eq!(on_acquire(&mut w), AcquireStep::Start);
    assert!(w.running && !w.cancel);
    assert_eq!(on_acquire(&mut w), AcquireStep::Coalesced);
    assert!(w.pending_acquire && w.cancel);
    end_capture(&mut w, CaptureOutcome::Cancelled);
    assert!(!w.running);
    assert!(retry_pending_acquire(&mut w, true));
    begin_capture(&mut w);
    assert!(w.running && !w.pending_acquire && !w.cancel);
}

#[test]
fn pending_acquire_dropped_when_mode_left_screen() {
    let mut w = WorkerFlags::new();
    on_acquire(&mut w);
    on_acquire(&mut w);
    end_capture(&mut w, CaptureOutcome::Finished);
    assert!(!retry_pending_acquire(&mut w, false));
    assert!(!w.pending_acquire);
}

#[test]
fn outcomes_from_messages() {
    assert_eq!(capture_outcome(None), CaptureOutcome::Finished);
    assert_eq!(capture_outcome(Some("portal open cancelled")), CaptureOutcome::Cancelled);
    assert_eq!(capture_outcome(Some("portal timed out")), CaptureOutcome::Failed { clear_token: true });
    assert_eq!(capture_outcome(Some("pipewire died")), CaptureOutcome::Failed { clear_token: false });
}

#[test]
fn failures_leave_error_state_until_next_acquire() {
    let mut w = WorkerFlags::new();
    on_acquire(&mut w);
    end_capture(&mut w, CaptureOutcome::Failed { clear_token: false });
    assert_eq!(w.state, WorkerState::Error);
    assert_eq!(on_acquire(&mut w), AcquireStep::Start);
    assert_eq!(w.state, WorkerState::Idle);
}

#[test]
fn release_and_reselect() {
    let mut w = WorkerFlags::new();
    assert!(on_release(&mut w));
    assert!(w.cancel);
    on_acquire(&mut w);
    assert!(!on_release(&mut w));
    on_stop_request(&mut w);
    end_capture(&mut w, CaptureOutcome::Cancelled);
    assert!(reselect_after_stop(&mut w, true));
    assert!(w.running && !w.cancel);
    let mut w = WorkerFlags::new();
    assert!(!reselect_after_stop(&mut w, false));
    assert!(!w.running);
}

#[test]
fn registry_finds_portal_node() {
    let mut s = RegistryScan::new(42);
    assert!(!s.matched_portal_id());
    assert_eq!(s.portal_target(), None);
    s.note_node(7, None, Some("Video/Source"), None);
    assert_eq!(s.nodes[0].label, "Video/Source");
    assert_eq!(s.nodes[0].target, None);
    s.note_node(42, Some("xdpw"), None, Some("113"));
    s.note_node(42, Some("later"), None, None);
    assert!(s.matched_portal_id());
    assert_eq!(s.portal_target(), Some("113".to_string()));
    let mut s = RegistryScan::new(9);
    s.note_node(9, None, None, None);
    assert_eq!(s.nodes[0].label, "?");
    assert!(s.matched_portal_id());
    assert_eq!(s.portal_target(), None);
    let mut s = RegistryScan::new(9);
    s.note_node(9, Some("node"), None, None);
    assert_eq!(s.portal_target(), Some("node".to_string()));
}
