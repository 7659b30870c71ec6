use stellavue::camera::{start_auto_capture_actions, stop_auto_capture_actions, CameraAction};
use stellavue::system::system_event::SystemEvent;

#[test]
fn start_schedules_idle_timer() {
    assert_eq!(
        start_auto_capture_actions(true, false, 20_000),
        vec![CameraAction::Post(SystemEvent::AutoCaptureStarted), CameraAction::ScheduleEvery(20_000)]
    );
}

#[test]
fn running_capture_is_not_restarted() {
    assert_eq!(
        start_auto_capture_actions(true, true, 5_000),
        vec![CameraAction::Post(SystemEvent::AutoCaptureStarted)]
    );
}

#[test]
fn no_timer_no_action() {
    assert!(start_auto_capture_actions(false, false, 1).is_empty());
    assert!(stop_auto_capture_actions(false, true).is_empty());
}

#[test]
fn stop_cancels_running_capture() {
    assert_eq!(
        stop_auto_capture_actions(true, true),
        vec![CameraAction::Post(SystemEvent::AutoCaptureStopped), CameraAction::Cancel]
    );
    assert_eq!(
        stop_auto_capture_actions(true, false),
        vec![CameraAction::Post(SystemEvent::AutoCaptureStopped)]
    );
}
