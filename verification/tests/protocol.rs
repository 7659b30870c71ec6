use stellavue::stepper::StepperDirection;
use stellavue::system::system_event::SystemEvent;
use stellavue::system::system_state::SystemState;
use stellavue::web::protocol::{
    answer_state_request, event_frame, event_to_response, map_command, parse_response, read_command, Command,
    ResponseType, COMMAND_LEN,
};

#[test]
fn command_start_calibration() {
    assert_eq!(map_command(0b0000), Command::StartCalibration);
}

#[test]
fn command_move_up_one_rotation_per_second() {
    // [speed 3200] [direction 1] 0001
    assert_eq!(map_command((3200 << 5) | (1 << 4) | 0b0001), Command::MoveConstant(StepperDirection::UP, 3200));
    assert_eq!(map_command(0x19011), Command::MoveConstant(StepperDirection::UP, 3200));
}

#[test]
fn command_move_down() {
    assert_eq!(map_command(0x19001), Command::MoveConstant(StepperDirection::DOWN, 3200));
    assert_eq!(map_command((6400 << 5) | 0b0001), Command::MoveConstant(StepperDirection::DOWN, 6400));
}

#[test]
fn command_speed_zero() {
    assert_eq!(map_command(0x11), Command::MoveConstant(StepperDirection::UP, 0));
    assert_eq!(map_command(0x01), Command::MoveConstant(StepperDirection::DOWN, 0));
}

#[test]
fn command_speed_keeps_sixteen_bits() {
    let speed: u32 = 0x1_0005;
    assert_eq!(map_command((speed << 5) | 0b0001), Command::MoveConstant(StepperDirection::DOWN, 5));
}

#[test]
fn command_set_tracking() {
    assert_eq!(map_command(0x12), Command::SetTracking(true));
    assert_eq!(map_command(0x02), Command::SetTracking(false));
    // only the lowest value bit counts
    assert_eq!(map_command(0x22), Command::SetTracking(false));
    assert_eq!(map_command(0xFFFF_FFF2), Command::SetTracking(true));
}

#[test]
fn command_request_state() {
    assert_eq!(map_command(0b0011), Command::RepeatLastEvent);
}

#[test]
fn command_camera() {
    assert_eq!(map_command(0b0100), Command::TestCapture);
    assert_eq!(map_command((20_000 << 4) | 0b0101), Command::StartAutoCapture(20_000));
    assert_eq!(map_command(0x4E205), Command::StartAutoCapture(20_000));
    assert_eq!(map_command(0xFFFF_FFF5), Command::StartAutoCapture(0x0FFF_FFFF));
    assert_eq!(map_command(0b0111), Command::StopAutoCapture);
    assert_eq!(map_command(0xABC7), Command::StopAutoCapture);
}

#[test]
fn command_unknown_actions() {
    for action in [6u32, 8, 9, 10, 11, 12, 13, 14, 15] {
        assert_eq!(map_command(action), Command::Unknown);
        assert_eq!(map_command(0x1230 | action), Command::Unknown);
    }
}

#[test]
fn command_frame_is_big_endian() {
    assert_eq!(COMMAND_LEN, 4);
    assert_eq!(read_command([0x00, 0x01, 0x90, 0x11]), Command::MoveConstant(StepperDirection::UP, 3200));
    assert_eq!(read_command([0x00, 0x00, 0x00, 0x12]), Command::SetTracking(true));
    assert_eq!(read_command([0x00, 0x04, 0xE2, 0x05]), Command::StartAutoCapture(20_000));
    assert_eq!(read_command([0x12, 0x00, 0x00, 0x00]), Command::StartCalibration);
}

#[test]
fn response_simple_kinds() {
    assert_eq!(parse_response(ResponseType::AllMovementStopped), [0, 0, 0, 0]);
    assert_eq!(parse_response(ResponseType::TrackingStarted), [0, 0, 0, 0b0010]);
    assert_eq!(parse_response(ResponseType::CalibrationStarted), [0, 0, 0, 0b0100]);
    assert_eq!(parse_response(ResponseType::ImageCaptured), [0, 0, 0, 0b0101]);
}

#[test]
fn response_constant_movement() {
    assert_eq!(parse_response(ResponseType::ConstantMovementStarted(1, 3200)), [0x00, 0x01, 0x90, 0x11]);
    assert_eq!(parse_response(ResponseType::ConstantMovementStarted(0, 6400)), [0x00, 0x03, 0x20, 0x01]);
    // the speed field holds thirteen bits, the direction field one
    assert_eq!(parse_response(ResponseType::ConstantMovementStarted(0, 0x2003)), [0, 0, 0, 0x61]);
    assert_eq!(parse_response(ResponseType::ConstantMovementStarted(3, 0)), [0, 0, 0, 0x11]);
}

#[test]
fn response_height() {
    assert_eq!(parse_response(ResponseType::HeightChanged(0)), [0, 0, 0, 0x03]);
    assert_eq!(parse_response(ResponseType::HeightChanged(50)), [0, 0, 0x03, 0x23]);
    assert_eq!(parse_response(ResponseType::HeightChanged(100)), [0, 0, 0x06, 0x43]);
    // seven bits of height
    assert_eq!(parse_response(ResponseType::HeightChanged(0x80 + 1)), [0, 0, 0, 0x13]);
}

#[test]
fn response_camera_and_state() {
    assert_eq!(parse_response(ResponseType::CameraCapturingChanged(true)), [0, 0, 0, 0x16]);
    assert_eq!(parse_response(ResponseType::CameraCapturingChanged(false)), [0, 0, 0, 0x06]);
    assert_eq!(parse_response(ResponseType::StateMessage(SystemState::Idle)), [0, 0, 0, 0x0F]);
    assert_eq!(parse_response(ResponseType::StateMessage(SystemState::Calibrating)), [0, 0, 0, 0x1F]);
    assert_eq!(parse_response(ResponseType::StateMessage(SystemState::Moving)), [0, 0, 0, 0x2F]);
    assert_eq!(parse_response(ResponseType::StateMessage(SystemState::Tracking)), [0, 0, 0, 0x3F]);
}

#[test]
fn events_become_responses() {
    assert_eq!(event_to_response(SystemEvent::CalibrationStarted), Some(ResponseType::CalibrationStarted));
    assert_eq!(event_to_response(SystemEvent::TrackingStart), Some(ResponseType::TrackingStarted));
    assert_eq!(event_to_response(SystemEvent::MovementStarted(1, 3200)), Some(ResponseType::ConstantMovementStarted(1, 3200)));
    assert_eq!(event_to_response(SystemEvent::MovementStop), Some(ResponseType::AllMovementStopped));
    assert_eq!(event_to_response(SystemEvent::ImageCaptured), Some(ResponseType::ImageCaptured));
    assert_eq!(event_to_response(SystemEvent::AutoCaptureStarted), Some(ResponseType::CameraCapturingChanged(true)));
    assert_eq!(event_to_response(SystemEvent::AutoCaptureStopped), Some(ResponseType::CameraCapturingChanged(false)));
    assert_eq!(event_to_response(SystemEvent::SystemStateInfo(SystemState::Moving)), Some(ResponseType::StateMessage(SystemState::Moving)));
}

#[test]
fn height_in_percent_of_travel() {
    assert_eq!(event_to_response(SystemEvent::StepComplete(0, 0)), Some(ResponseType::HeightChanged(0)));
    assert_eq!(event_to_response(SystemEvent::StepComplete(50, 0)), Some(ResponseType::HeightChanged(50)));
    assert_eq!(event_to_response(SystemEvent::StepComplete(12, 1600)), Some(ResponseType::HeightChanged(12)));
    assert_eq!(event_to_response(SystemEvent::StepComplete(99, 3199)), Some(ResponseType::HeightChanged(99)));
    assert_eq!(event_to_response(SystemEvent::RotationComplete(100)), Some(ResponseType::HeightChanged(100)));
    assert_eq!(event_to_response(SystemEvent::RotationComplete(1)), Some(ResponseType::HeightChanged(1)));
    // beyond the travel the height exceeds 100%
    assert_eq!(event_to_response(SystemEvent::RotationComplete(200)), Some(ResponseType::HeightChanged(200)));
}

#[test]
fn event_frames() {
    assert_eq!(event_frame(SystemEvent::StepComplete(50, 0)), Some([0, 0, 0x03, 0x23]));
    assert_eq!(event_frame(SystemEvent::MovementStarted(1, 3200)), Some([0x00, 0x01, 0x90, 0x11]));
    assert_eq!(event_frame(SystemEvent::SystemStateInfo(SystemState::Tracking)), Some([0, 0, 0, 0x3F]));
}

#[test]
fn frame_round_trip_on_values() {
    // a response frame read as a command frame gives back the same word
    let frame = parse_response(ResponseType::ConstantMovementStarted(1, 3200));
    assert_eq!(read_command(frame), Command::MoveConstant(StepperDirection::UP, 3200));
    let frame = parse_response(ResponseType::CameraCapturingChanged(false));
    assert_eq!(read_command(frame), Command::Unknown);
}

#[test]
fn movement_report_reads_back() {
    // a client reading the report of a movement recovers direction and speed
    let frame = event_frame(SystemEvent::MovementStarted(0, 6400)).unwrap();
    let word = u32::from_be_bytes(frame);
    assert_eq!(word & 0xF, 1);
    assert_eq!((word >> 4) & 1, 0);
    assert_eq!(word >> 5, 6400);
}

#[test]
fn state_request_answers_state_message() {
    assert_eq!(answer_state_request(SystemState::Idle), [0, 0, 0, 0x0F]);
    assert_eq!(answer_state_request(SystemState::Calibrating), [0, 0, 0, 0x1F]);
    assert_eq!(answer_state_request(SystemState::Moving), [0, 0, 0, 0x2F]);
    assert_eq!(answer_state_request(SystemState::Tracking), [0, 0, 0, 0x3F]);
}
