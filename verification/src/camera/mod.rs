//! Decisions of the camera's automatic capturing.

use vstd::prelude::*;
use crate::system::system_event::SystemEvent;

verus! {

/// Something the camera's capture timer or the event loop is to do.
#[derive(Clone, Copy, Debug, PartialEq, Eq, Structural)]
pub enum CameraAction {
    /// Post an event on the system event loop.
    Post(SystemEvent),
    /// Run the capture timer every so many milliseconds.
    ScheduleEvery(u64),
    /// Cancel the capture timer.
    Cancel,
}

/// What a request to capture every `interval` milliseconds does: without a
/// capture timer, nothing; else it reports the start and schedules the timer,
/// unless the timer is already scheduled: a running capture is not
/// restarted or changed.
pub open spec fn start_auto_capture_plan(
    timer_present: bool,
    timer_scheduled: bool,
    interval: u64,
) -> Seq<CameraAction> {
    if !timer_present {
        seq![]
    } else if timer_scheduled {
        seq![CameraAction::Post(SystemEvent::AutoCaptureStarted)]
    } else {
        seq![
            CameraAction::Post(SystemEvent::AutoCaptureStarted),
            CameraAction::ScheduleEvery(interval),
        ]
    }
}

/// What a request to stop capturing does: without a capture timer,
/// nothing; else it reports the stop and cancels the timer when it is
/// scheduled.
pub open spec fn stop_auto_capture_plan(timer_present: bool, timer_scheduled: bool) -> Seq<
    CameraAction,
> {
    if !timer_present {
        seq![]
    } else if !timer_scheduled {
        seq![CameraAction::Post(SystemEvent::AutoCaptureStopped)]
    } else {
        seq![CameraAction::Post(SystemEvent::AutoCaptureStopped), CameraAction::Cancel]
    }
}

/// Capturing that runs is not restarted or changed by another start: it has
/// to be stopped first. A start of an idle timer schedules it with the
/// interval asked for and no other. A stop cancels only a running capture.
pub proof fn lemma_running_capture_not_restarted(interval: u64, other: u64)
    ensures
        forall|i: int|
            0 <= i < start_auto_capture_plan(true, true, interval).len() ==> !(
            start_auto_capture_plan(true, true, interval)[i] is ScheduleEvery),
        start_auto_capture_plan(true, false, interval).contains(CameraAction::ScheduleEvery(interval)),
        !start_auto_capture_plan(true, false, interval).contains(CameraAction::ScheduleEvery(other)) || other == interval,
        !stop_auto_capture_plan(true, false).contains(CameraAction::Cancel),
        stop_auto_capture_plan(true, true).contains(CameraAction::Cancel),
{
    let started = start_auto_capture_plan(true, false, interval);
    assert(started[1] == CameraAction::ScheduleEvery(interval));
    assert(stop_auto_capture_plan(true, true)[1] == CameraAction::Cancel);
    assert(!stop_auto_capture_plan(true, false).contains(CameraAction::Cancel)) by {
        let stopped = stop_auto_capture_plan(true, false);
        if stopped.contains(CameraAction::Cancel) {
            let k = choose|k: int| 0 <= k < stopped.len() && stopped[k] == CameraAction::Cancel;
            assert(k == 0);
        }
    }
    if started.contains(CameraAction::ScheduleEvery(other)) {
        let k = choose|k: int| 0 <= k < started.len() && started[k] == CameraAction::ScheduleEvery(other);
        assert(k == 0 || k == 1);
    }
}

/// Decides what a request to capture every `interval` milliseconds does.
pub fn start_auto_capture_actions(
    timer_present: bool,
    timer_scheduled: bool,
    interval: u64,
) -> (actions: Vec<CameraAction>)
    ensures
        actions@ == start_auto_capture_plan(timer_present, timer_scheduled, interval),
{
    let mut actions: Vec<CameraAction> = Vec::new();
    if timer_present {
        actions.push(CameraAction::Post(SystemEvent::AutoCaptureStarted));
        if !timer_scheduled {
            actions.push(CameraAction::ScheduleEvery(interval));
        }
    }
    assert(actions@ =~= start_auto_capture_plan(timer_present, timer_scheduled, interval));
    actions
}

/// Decides what a request to stop capturing does.
pub fn stop_auto_capture_actions(timer_present: bool, timer_scheduled: bool) -> (actions: Vec<
    CameraAction,
>)
    ensures
        actions@ == stop_auto_capture_plan(timer_present, timer_scheduled),
{
    let mut actions: Vec<CameraAction> = Vec::new();
    if timer_present {
        actions.push(CameraAction::Post(SystemEvent::AutoCaptureStopped));
        if timer_scheduled {
            actions.push(CameraAction::Cancel);
        }
    }
    assert(actions@ =~= stop_auto_capture_plan(timer_present, timer_scheduled));
    actions
}

} // verus!
