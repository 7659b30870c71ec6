use stellavue::stepper::StepperDirection;
use stellavue::system::system_state::SystemState;
use stellavue::web::protocol::Command;

const ALL: [SystemState; 4] = [
    SystemState::Tracking,
    SystemState::Calibrating,
    SystemState::Moving,
    SystemState::Idle,
];

fn permitted(from: SystemState, to: SystemState) -> bool {
    let mut state = from;
    let changed = state.transition(to);
    if changed {
        assert_eq!(state, to);
    } else {
        assert_eq!(state, from);
    }
    changed
}

#[test]
fn starts_idle() {
    assert_eq!(SystemState::new(), SystemState::Idle);
}

#[test]
fn transition_table() {
    let expected = [
        (SystemState::Tracking, SystemState::Idle),
        (SystemState::Tracking, SystemState::Calibrating),
        (SystemState::Calibrating, SystemState::Idle),
        (SystemState::Calibrating, SystemState::Calibrating),
        (SystemState::Moving, SystemState::Idle),
        (SystemState::Moving, SystemState::Moving),
        (SystemState::Moving, SystemState::Calibrating),
        (SystemState::Idle, SystemState::Moving),
        (SystemState::Idle, SystemState::Calibrating),
        (SystemState::Idle, SystemState::Tracking),
    ];
    for from in ALL {
        for to in ALL {
            assert_eq!(permitted(from, to), expected.contains(&(from, to)), "{:?} -> {:?}", from, to);
        }
    }
}

#[test]
fn calibration_starts_any_time_and_ends_idle() {
    for from in ALL {
        assert!(permitted(from, SystemState::Calibrating));
    }
    assert!(permitted(SystemState::Calibrating, SystemState::Idle));
    assert!(!permitted(SystemState::Calibrating, SystemState::Moving));
    assert!(!permitted(SystemState::Calibrating, SystemState::Tracking));
}

#[test]
fn gate_movement() {
    let mv = Command::MoveConstant(StepperDirection::UP, 100);
    let mut state = SystemState::Idle;
    assert_eq!(state.gate_command(mv), Some(mv));
    assert_eq!(state, SystemState::Moving);
    assert_eq!(state.gate_command(mv), Some(mv));
    let mut state = SystemState::Tracking;
    assert_eq!(state.gate_command(mv), None);
    assert_eq!(state, SystemState::Tracking);
}

#[test]
fn gate_tracking() {
    let mut state = SystemState::Idle;
    assert_eq!(state.gate_command(Command::SetTracking(true)), Some(Command::SetTracking(true)));
    assert_eq!(state, SystemState::Tracking);
    // enabling again while tracking turns tracking off
    assert_eq!(state.gate_command(Command::SetTracking(true)), Some(Command::SetTracking(false)));
    assert_eq!(state, SystemState::Idle);
    // disabling while idle does nothing
    assert_eq!(state.gate_command(Command::SetTracking(false)), None);
    assert_eq!(state, SystemState::Idle);
    // enabling while moving stops the movement
    let mut state = SystemState::Moving;
    assert_eq!(state.gate_command(Command::SetTracking(true)), Some(Command::SetTracking(false)));
    assert_eq!(state, SystemState::Idle);
}

#[test]
fn gate_speed_zero_is_a_movement() {
    let halt = Command::MoveConstant(StepperDirection::UP, 0);
    let mut state = SystemState::Moving;
    assert_eq!(state.gate_command(halt), Some(halt));
    assert_eq!(state, SystemState::Moving);
    let mut state = SystemState::Idle;
    assert_eq!(state.gate_command(halt), Some(halt));
    assert_eq!(state, SystemState::Moving);
    let mut state = SystemState::Tracking;
    assert_eq!(state.gate_command(halt), None);
    assert_eq!(state, SystemState::Tracking);
}

#[test]
fn gate_calibration() {
    for mode in ALL {
        let mut state = mode;
        assert_eq!(state.gate_command(Command::StartCalibration), Some(Command::StartCalibration));
        assert_eq!(state, SystemState::Calibrating);
    }
    let mut state = SystemState::Calibrating;
    assert_eq!(state.gate_command(Command::MoveConstant(StepperDirection::DOWN, 5)), None);
    assert_eq!(state.gate_command(Command::SetTracking(true)), None);
    assert_eq!(state.gate_command(Command::SetTracking(false)), None);
    assert_eq!(state, SystemState::Calibrating);
    // the limit switch ends the calibration
    assert!(state.transition(SystemState::Idle));
    assert_eq!(state.gate_command(Command::MoveConstant(StepperDirection::DOWN, 5)), Some(Command::MoveConstant(StepperDirection::DOWN, 5)));
    assert_eq!(state, SystemState::Moving);
}

#[test]
fn gate_passes_state_request_and_camera() {
    for mode in ALL {
        for command in [
            Command::RepeatLastEvent,
            Command::TestCapture,
            Command::StartAutoCapture(1000),
            Command::StopAutoCapture,
        ] {
            let mut state = mode;
            assert_eq!(state.gate_command(command), Some(command));
            assert_eq!(state, mode);
        }
        let mut state = mode;
        assert_eq!(state.gate_command(Command::Unknown), None);
        assert_eq!(state, mode);
    }
}
