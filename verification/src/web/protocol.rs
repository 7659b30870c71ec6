use vstd::prelude::*;
use crate::stepper::StepperDirection;
use crate::stepper::rotation_state::{MAX_ROTATIONS, STEPS_PER_ROTATION};
use crate::system::system_event::SystemEvent;
use crate::system::system_state::SystemState;

verus! {

/// Bytes in one command or response frame.
pub const COMMAND_LEN: usize = 4;

/// What the tracker tells its clients.
#[derive(Clone, Copy, Debug, PartialEq, Eq, Structural)]
pub enum ResponseType {
    AllMovementStopped,
    /// (direction, 1 for up and 0 for down; steps per second)
    ConstantMovementStarted(u8, u16),
    TrackingStarted,
    CalibrationStarted,
    /// Height of the tracker in percent of its travel.
    HeightChanged(u16),
    ImageCaptured,
    /// Whether automatic capturing is now on.
    CameraCapturingChanged(bool),
    StateMessage(SystemState),
}

/// What a client asks of the tracker.
#[derive(Clone, Copy, Debug, PartialEq, Eq, Structural)]
pub enum Command {
    StartCalibration,
    /// Move in a direction at a number of steps per second; 0 stops.
    MoveConstant(StepperDirection, u16),
    SetTracking(bool),
    /// Send the last event again (the state request).
    RepeatLastEvent,
    TestCapture,
    /// Start capturing images every so many milliseconds.
    StartAutoCapture(u32),
    StopAutoCapture,
    Unknown,
}

/// The command that a command word stands for: the lowest four bits give the
/// action, the bits above them its values.
pub open spec fn command_of(word: u32) -> Command {
    let action = word % 16;
    let payload = word / 16;
    if action == 0 {
        Command::StartCalibration
    } else if action == 1 {
        Command::MoveConstant(
            if payload % 2 == 1 { StepperDirection::UP } else { StepperDirection::DOWN },
            (payload / 2 % 0x10000) as u16,
        )
    } else if action == 2 {
        Command::SetTracking(payload % 2 == 1)
    } else if action == 3 {
        Command::RepeatLastEvent
    } else if action == 4 {
        Command::TestCapture
    } else if action == 5 {
        Command::StartAutoCapture(payload as u32)
    } else if action == 7 {
        Command::StopAutoCapture
    } else {
        Command::Unknown
    }
}

/// Decodes a command word (`[28 bit: values] [4 bit: action]`).
pub fn map_command(command: u32) -> (decoded: Command)
    ensures
        decoded == command_of(command),
{
    let command_type = 0b1111 & command;
    let payload = command >> 4;
    proof {
        assert(command_type == command % 16 && payload == command / 16) by (bit_vector)
            requires
                command_type == 0b1111 & command,
                payload == command >> 4,
        ;
    }
    if command_type == 0b0000 {
        Command::StartCalibration
    } else if command_type == 0b0001 {
        let direction = 0x1 & payload;
        let direction = if direction == 1 { StepperDirection::UP } else { StepperDirection::DOWN };
        let speed = payload >> 1;
        proof {
            assert(0x1 & payload == payload % 2) by (bit_vector);
            assert((payload >> 1) as u16 == ((payload / 2) % 0x10000) as u16) by (bit_vector);
        }
        Command::MoveConstant(direction, speed as u16)
    } else if command_type == 0b0010 {
        let state = 0x1 & payload;
        proof {
            assert(0x1 & payload == payload % 2) by (bit_vector);
        }
        let enable = if state == 1 { true } else { false };
        Command::SetTracking(enable)
    } else if command_type == 0b0011 {
        Command::RepeatLastEvent
    } else if command_type == 0b0100 {
        Command::TestCapture
    } else if command_type == 0b0101 {
        Command::StartAutoCapture(payload)
    } else if command_type == 0b0111 {
        Command::StopAutoCapture
    } else {
        Command::Unknown
    }
}

/// Height in percent of the tracker's travel after `rotations` turns and
/// `offset` steps: the steps done so far against the steps of all
/// `MAX_ROTATIONS` turns, rounded down.
pub open spec fn height_percentage(rotations: int, offset: int) -> int {
    (rotations * STEPS_PER_ROTATION + offset) * 100 / (MAX_ROTATIONS * STEPS_PER_ROTATION)
}

/// Whether an event's position is small enough for its height to be
/// computed in 32 bits: the steps done, times 100, fit in a `u32`.
pub open spec fn event_in_range(event: SystemEvent) -> bool {
    match event {
        SystemEvent::StepComplete(rotations, offset) => (rotations * STEPS_PER_ROTATION + offset)
            * 100 <= u32::MAX,
        SystemEvent::RotationComplete(rotations) => rotations * STEPS_PER_ROTATION * 100
            <= u32::MAX,
        _ => true,
    }
}

/// The response that reports `event` to the clients.
pub open spec fn response_to(event: SystemEvent) -> ResponseType {
    match event {
        SystemEvent::CalibrationStarted => ResponseType::CalibrationStarted,
        SystemEvent::StepComplete(rotations, offset) => ResponseType::HeightChanged(
            height_percentage(rotations as int, offset as int) as u16,
        ),
        SystemEvent::RotationComplete(rotations) => ResponseType::HeightChanged(
            height_percentage(rotations as int, 0) as u16,
        ),
        SystemEvent::TrackingStart => ResponseType::TrackingStarted,
        SystemEvent::MovementStarted(direction, speed) => ResponseType::ConstantMovementStarted(
            direction,
            speed,
        ),
        SystemEvent::MovementStop => ResponseType::AllMovementStopped,
        SystemEvent::ImageCaptured => ResponseType::ImageCaptured,
        SystemEvent::AutoCaptureStarted => ResponseType::CameraCapturingChanged(true),
        SystemEvent::AutoCaptureStopped => ResponseType::CameraCapturingChanged(false),
        SystemEvent::SystemStateInfo(state) => ResponseType::StateMessage(state),
    }
}

fn height_changed(rotations: u16, offset: u16) -> (response: ResponseType)
    requires
        (rotations * STEPS_PER_ROTATION + offset) * 100 <= u32::MAX,
    ensures
        response == ResponseType::HeightChanged(
            height_percentage(rotations as int, offset as int) as u16,
        ),
{
    let total_steps = (rotations as u32) * (STEPS_PER_ROTATION as u32) + (offset as u32);
    let max_steps: u32 = (MAX_ROTATIONS as u32) * (STEPS_PER_ROTATION as u32);
    assert(max_steps == 320000);
    let scaled = total_steps * 100;
    let percentage = scaled / max_steps;
    assert(percentage < 0x10000) by (nonlinear_arith)
        requires
            percentage == scaled / 320000,
            scaled <= u32::MAX,
    ;
    ResponseType::HeightChanged(percentage as u16)
}

/// The response, if any, that reports `event` to the clients.
pub fn event_to_response(event: SystemEvent) -> (response: Option<ResponseType>)
    requires
        event_in_range(event),
    ensures
        response == Some(response_to(event)),
{
    match event {
        SystemEvent::CalibrationStarted => Some(ResponseType::CalibrationStarted),
        SystemEvent::StepComplete(rotations, offset) => Some(height_changed(rotations, offset)),
        SystemEvent::RotationComplete(rotations) => Some(height_changed(rotations, 0)),
        SystemEvent::TrackingStart => Some(ResponseType::TrackingStarted),
        SystemEvent::MovementStarted(direction, speed) => {
            Some(ResponseType::ConstantMovementStarted(direction, speed))
        },
        SystemEvent::MovementStop => Some(ResponseType::AllMovementStopped),
        SystemEvent::ImageCaptured => Some(ResponseType::ImageCaptured),
        SystemEvent::AutoCaptureStarted => Some(ResponseType::CameraCapturingChanged(true)),
        SystemEvent::AutoCaptureStopped => Some(ResponseType::CameraCapturingChanged(false)),
        SystemEvent::SystemStateInfo(state) => Some(ResponseType::StateMessage(state)),
    }
}

/// The frame that reports `event` to the clients, if any.
pub fn event_frame(event: SystemEvent) -> (frame: Option<[u8; 4]>)
    requires
        event_in_range(event),
    ensures
        frame matches Some(bytes) && bytes@ == be_bytes(response_word(response_to(event))),
{
    match event_to_response(event) {
        Some(response) => Some(parse_response(response)),
        None => None,
    }
}

/// The answer to a state request in mode `state`: its state message.
pub fn answer_state_request(state: SystemState) -> (frame: [u8; 4])
    ensures
        frame@ == be_bytes(response_word(ResponseType::StateMessage(state))),
{
    parse_response(ResponseType::StateMessage(state))
}

/// The number that a state message carries for a mode.
pub open spec fn state_code(state: SystemState) -> int {
    match state {
        SystemState::Idle => 0,
        SystemState::Calibrating => 1,
        SystemState::Moving => 2,
        SystemState::Tracking => 3,
    }
}

/// The word that answers with `response`: its kind in the lowest four bits,
/// its values above them. A movement report holds the direction in one bit
/// and the speed in the thirteen bits above it; a height report holds the
/// height in seven bits; a capture report holds its state in one bit; a state
/// message holds the mode in two bits.
pub open spec fn response_word(response: ResponseType) -> int {
    match response {
        ResponseType::AllMovementStopped => 0,
        ResponseType::ConstantMovementStarted(direction, speed) => (speed % 0x2000) * 32 + (
        direction % 2) * 16 + 1,
        ResponseType::TrackingStarted => 2,
        ResponseType::HeightChanged(percentage) => (percentage % 0x80) * 16 + 3,
        ResponseType::CalibrationStarted => 4,
        ResponseType::ImageCaptured => 5,
        ResponseType::CameraCapturingChanged(on) => (if on { 1int } else { 0int }) * 16 + 6,
        ResponseType::StateMessage(state) => state_code(state) * 16 + 15,
    }
}

/// The four bytes of `word`, most significant first.
pub open spec fn be_bytes(word: int) -> Seq<u8> {
    seq![
        (word / 0x1000000 % 0x100) as u8,
        (word / 0x10000 % 0x100) as u8,
        (word / 0x100 % 0x100) as u8,
        (word % 0x100) as u8,
    ]
}

/// The number that four bytes, most significant first, stand for.
pub open spec fn be_value(bytes: Seq<u8>) -> int {
    bytes[0] * 0x1000000 + bytes[1] * 0x10000 + bytes[2] * 0x100 + bytes[3]
}

fn u32_to_be_bytes(word: u32) -> (bytes: [u8; 4])
    ensures
        bytes@ == be_bytes(word as int),
{
    let b0 = (word >> 24) as u8;
    let b1 = (word >> 16) as u8;
    let b2 = (word >> 8) as u8;
    let b3 = word as u8;
    proof {
        assert(b0 == (word / 0x1000000 % 0x100) as u8) by (bit_vector)
            requires b0 == (word >> 24) as u8;
        assert(b1 == (word / 0x10000 % 0x100) as u8) by (bit_vector)
            requires b1 == (word >> 16) as u8;
        assert(b2 == (word / 0x100 % 0x100) as u8) by (bit_vector)
            requires b2 == (word >> 8) as u8;
        assert(b3 == (word % 0x100) as u8) by (bit_vector)
            requires b3 == word as u8;
    }
    let bytes = [b0, b1, b2, b3];
    assert(bytes@ =~= be_bytes(word as int));
    bytes
}

fn u32_from_be_bytes(bytes: [u8; 4]) -> (word: u32)
    ensures
        word == be_value(bytes@),
{
    let b0 = bytes[0];
    let b1 = bytes[1];
    let b2 = bytes[2];
    let b3 = bytes[3];
    proof {
        assert(((b0 as u32) << 24) == b0 * 0x1000000) by (bit_vector);
        assert(((b1 as u32) << 16) == b1 * 0x10000) by (bit_vector);
        assert(((b2 as u32) << 8) == b2 * 0x100) by (bit_vector);
    }
    ((b0 as u32) << 24) + ((b1 as u32) << 16) + ((b2 as u32) << 8) + b3 as u32
}

/// Reads a command frame: four bytes, most significant first.
pub fn read_command(buffer: [u8; COMMAND_LEN]) -> (decoded: Command)
    ensures
        decoded == command_of(be_value(buffer@) as u32),
{
    let command_bits = u32_from_be_bytes(buffer);
    map_command(command_bits)
}

/// Encodes a response as a frame: its word in four bytes, most significant
/// first.
pub fn parse_response(response_type: ResponseType) -> (frame: [u8; 4])
    ensures
        frame@ == be_bytes(response_word(response_type)),
{
    let command: u32 = match response_type {
        ResponseType::ConstantMovementStarted(direction, speed) => {
            let speed_bits = ((speed & 0x1fff) as u32) << 5;
            let direction_bit = ((direction & 1) as u32) << 4;
            proof {
                assert(speed_bits == (speed % 0x2000) * 32 && speed_bits < 0x40000) by (bit_vector)
                    requires speed_bits == ((speed & 0x1fff) as u32) << 5;
                assert(direction_bit == (direction % 2) * 16) by (bit_vector)
                    requires direction_bit == ((direction & 1) as u32) << 4;
            }
            let word = speed_bits + direction_bit + 0b0001;
            word
        },
        ResponseType::HeightChanged(percentage) => {
            let height_bits = ((percentage & 0x7f) as u32) << 4;
            proof {
                assert(height_bits == (percentage % 0x80) * 16) by (bit_vector)
                    requires height_bits == ((percentage & 0x7f) as u32) << 4;
            }
            let word = height_bits + 0b0011;
            word
        },
        ResponseType::AllMovementStopped => 0,
        ResponseType::TrackingStarted => 0b0010,
        ResponseType::CalibrationStarted => 0b0100,
        ResponseType::ImageCaptured => 0b0101,
        ResponseType::CameraCapturingChanged(on) => if on { 0b1_0110 } else { 0b0110 },
        ResponseType::StateMessage(state) => match state {
            SystemState::Idle => 0b00_1111,
            SystemState::Calibrating => 0b01_1111,
            SystemState::Moving => 0b10_1111,
            SystemState::Tracking => 0b11_1111,
        },
    };
    u32_to_be_bytes(command)
}

/// The word by which a client sends `command`, as the protocol lays it out:
/// the action in the lowest four bits and its values above them (a movement:
/// the direction in one bit, then the speed; tracking: one bit; automatic
/// capture: the interval). `Unknown` has no word of its own; it stands here
/// as action 6, which no command uses.
pub open spec fn command_word(command: Command) -> int {
    match command {
        Command::StartCalibration => 0,
        Command::MoveConstant(direction, speed) => speed * 32 + (if direction
            == StepperDirection::UP {
            1int
        } else {
            0int
        }) * 16 + 1,
        Command::SetTracking(enable) => (if enable { 1int } else { 0int }) * 16 + 2,
        Command::RepeatLastEvent => 3,
        Command::TestCapture => 4,
        Command::StartAutoCapture(interval) => interval * 16 + 5,
        Command::StopAutoCapture => 7,
        Command::Unknown => 6,
    }
}

/// Whether a client can send `command` in one word: an automatic capture
/// interval has 28 bits.
pub open spec fn command_sendable(command: Command) -> bool {
    match command {
        Command::StartAutoCapture(interval) => interval < 0x1000_0000,
        _ => true,
    }
}

/// The mode that a state message's two bits stand for.
pub open spec fn state_of_code(code: int) -> SystemState {
    if code == 0 {
        SystemState::Idle
    } else if code == 1 {
        SystemState::Calibrating
    } else if code == 2 {
        SystemState::Moving
    } else {
        SystemState::Tracking
    }
}

/// How a client reads a response word: the kind from the lowest four bits,
/// the values from the bits above them.
pub open spec fn response_of_word(word: int) -> Option<ResponseType> {
    let kind = word % 16;
    let value = word / 16;
    if kind == 0 {
        Some(ResponseType::AllMovementStopped)
    } else if kind == 1 {
        Some(ResponseType::ConstantMovementStarted((value % 2) as u8, (value / 2) as u16))
    } else if kind == 2 {
        Some(ResponseType::TrackingStarted)
    } else if kind == 3 {
        Some(ResponseType::HeightChanged(value as u16))
    } else if kind == 4 {
        Some(ResponseType::CalibrationStarted)
    } else if kind == 5 {
        Some(ResponseType::ImageCaptured)
    } else if kind == 6 {
        Some(ResponseType::CameraCapturingChanged(value % 2 == 1))
    } else if kind == 15 {
        Some(ResponseType::StateMessage(state_of_code(value % 4)))
    } else {
        None
    }
}

/// Whether the values of `response` fit the fields the protocol gives them:
/// a direction of one bit and a speed of thirteen, a height of seven.
pub open spec fn response_fits(response: ResponseType) -> bool {
    match response {
        ResponseType::ConstantMovementStarted(direction, speed) => direction < 2 && speed < 0x2000,
        ResponseType::HeightChanged(percentage) => percentage < 0x80,
        _ => true,
    }
}

/// A word sent in a frame is read back unchanged.
pub proof fn lemma_frame_round_trip(word: u32)
    ensures
        be_value(be_bytes(word as int)) == word,
{
    let b = be_bytes(word as int);
    assert(b[0] == (word / 0x1000000 % 0x100) as u8);
    assert(b[3] == (word % 0x100) as u8);
    assert(((word / 0x1000000 % 0x100) as u8) * 0x1000000 + ((word / 0x10000 % 0x100) as u8)
        * 0x10000 + ((word / 0x100 % 0x100) as u8) * 0x100 + ((word % 0x100) as u8) == word)
        by (bit_vector);
}

/// The bytes of a frame are those of the word they stand for.
pub proof fn lemma_bytes_round_trip(bytes: Seq<u8>)
    requires
        bytes.len() == 4,
    ensures
        be_bytes(be_value(bytes)) == bytes,
{
    let b0 = bytes[0];
    let b1 = bytes[1];
    let b2 = bytes[2];
    let b3 = bytes[3];
    let v = be_value(bytes);
    assert(v == b0 * 0x1000000 + b1 * 0x10000 + b2 * 0x100 + b3);
    assert(((b0 * 0x1000000 + b1 * 0x10000 + b2 * 0x100 + b3) / 0x1000000 % 0x100) as u8 == b0
        && ((b0 * 0x1000000 + b1 * 0x10000 + b2 * 0x100 + b3) / 0x10000 % 0x100) as u8 == b1
        && ((b0 * 0x1000000 + b1 * 0x10000 + b2 * 0x100 + b3) / 0x100 % 0x100) as u8 == b2
        && ((b0 * 0x1000000 + b1 * 0x10000 + b2 * 0x100 + b3) % 0x100) as u8 == b3)
        by (bit_vector);
    assert(be_bytes(v) =~= bytes);
}

/// What a client sends is what the tracker reads: the frame of the word of
/// any command a client can send decodes to that command.
pub proof fn lemma_command_round_trip(command: Command)
    requires
        command != Command::Unknown,
        command_sendable(command),
    ensures
        0 <= command_word(command) <= u32::MAX,
        command_of(be_value(be_bytes(command_word(command))) as u32) == command,
{
    let word = command_word(command);
    match command {
        Command::MoveConstant(direction, speed) => {
            let bit: u32 = if direction == StepperDirection::UP { 1 } else { 0 };
            assert(word == speed * 32 + bit * 16 + 1);
            let w: u32 = ((speed as u32) * 32 + bit * 16 + 1) as u32;
            assert(w % 16 == 1 && w / 16 % 2 == bit && w / 16 / 2 % 0x10000 == speed)
                by (bit_vector)
                requires
                    bit < 2,
                    w == ((speed as u32) * 32 + bit * 16 + 1) as u32,
            ;
            lemma_frame_round_trip(w);
        },
        Command::SetTracking(enable) => {
            let bit: u32 = if enable { 1 } else { 0 };
            let w: u32 = (bit * 16 + 2) as u32;
            assert(w % 16 == 2 && w / 16 % 2 == bit);
            lemma_frame_round_trip(w);
        },
        Command::StartAutoCapture(interval) => {
            let w: u32 = (interval * 16 + 5) as u32;
            assert(w % 16 == 5 && w / 16 == interval) by (bit_vector)
                requires
                    interval < 0x1000_0000,
                    w == (interval * 16 + 5) as u32,
            ;
            lemma_frame_round_trip(w);
        },
        Command::StartCalibration => {
            lemma_frame_round_trip(0);
        },
        Command::RepeatLastEvent => {
            lemma_frame_round_trip(3);
        },
        Command::TestCapture => {
            lemma_frame_round_trip(4);
        },
        Command::StopAutoCapture => {
            lemma_frame_round_trip(7);
        },
        Command::Unknown => {},
    }
}

/// What the tracker answers is what a client reads: the frame of a
/// response whose values fit their fields reads back as that response.
pub proof fn lemma_response_round_trip(response: ResponseType)
    requires
        response_fits(response),
    ensures
        0 <= response_word(response) <= u32::MAX,
        response_of_word(be_value(be_bytes(response_word(response)))) == Some(response),
{
    let word = response_word(response);
    match response {
        ResponseType::ConstantMovementStarted(direction, speed) => {
            let w: u32 = ((speed as u32) * 32 + (direction as u32) * 16 + 1) as u32;
            assert(w % 16 == 1 && w / 16 % 2 == direction && w / 16 / 2 == speed) by (bit_vector)
                requires
                    direction < 2,
                    speed < 0x2000,
                    w == ((speed as u32) * 32 + (direction as u32) * 16 + 1) as u32,
            ;
            assert(word == w);
            lemma_frame_round_trip(w);
        },
        ResponseType::HeightChanged(percentage) => {
            let w: u32 = ((percentage as u32) * 16 + 3) as u32;
            assert(w % 16 == 3 && w / 16 == percentage) by (bit_vector)
                requires
                    percentage < 0x80,
                    w == ((percentage as u32) * 16 + 3) as u32,
            ;
            assert(word == w);
            lemma_frame_round_trip(w);
        },
        ResponseType::CameraCapturingChanged(on) => {
            let w: u32 = if on { 22 } else { 6 };
            assert(word == w);
            lemma_frame_round_trip(w);
        },
        ResponseType::StateMessage(state) => {
            let w = (state_code(state) * 16 + 15) as u32;
            assert(word == w);
            lemma_frame_round_trip(w);
        },
        ResponseType::AllMovementStopped => {
            lemma_frame_round_trip(0);
        },
        ResponseType::TrackingStarted => {
            lemma_frame_round_trip(2);
        },
        ResponseType::CalibrationStarted => {
            lemma_frame_round_trip(4);
        },
        ResponseType::ImageCaptured => {
            lemma_frame_round_trip(5);
        },
    }
}

/// A step report carries the height as the share of the travel done, in
/// percent rounded down: `p` percent with `p` hundredths of the whole travel
/// done and not `p + 1`.
pub proof fn lemma_height_is_share_of_travel(rotations: u16, offset: u16)
    requires
        (rotations * STEPS_PER_ROTATION + offset) * 100 <= u32::MAX,
    ensures
        ({
            let done = rotations * STEPS_PER_ROTATION + offset;
            let travel = MAX_ROTATIONS * STEPS_PER_ROTATION;
            response_to(SystemEvent::StepComplete(rotations, offset)) matches ResponseType::HeightChanged(p)
                && p * travel <= done * 100 < (p + 1) * travel
        }),
{
    let done = rotations * STEPS_PER_ROTATION + offset;
    let h = height_percentage(rotations as int, offset as int);
    assert(h == done * 100 / 320000);
    assert(0 <= h < 0x10000 && h * 320000 <= done * 100 < (h + 1) * 320000) by (nonlinear_arith)
        requires
            h == done * 100 / 320000,
            0 <= done * 100 <= u32::MAX,
    ;
    assert((h as u16) as int == h);
}

/// Actions 6 and 8 to 15 name no command: their words read as unknown,
/// whatever values they carry.
pub proof fn lemma_unused_actions_unknown(word: u32)
    requires
        word % 16 == 6 || word % 16 >= 8,
    ensures
        command_of(word) == Command::Unknown,
{
}

/// Each event is reported by the response of its kind: calibration,
/// tracking, movement start and stop, captures and mode reports carry over
/// their values, and steps and turns report the height they reach.
pub proof fn lemma_event_reports(
    state: SystemState,
    direction: u8,
    speed: u16,
    rotations: u16,
    offset: u16,
)
    ensures
        response_to(SystemEvent::CalibrationStarted) == ResponseType::CalibrationStarted,
        response_to(SystemEvent::TrackingStart) == ResponseType::TrackingStarted,
        response_to(SystemEvent::MovementStarted(direction, speed))
            == ResponseType::ConstantMovementStarted(direction, speed),
        response_to(SystemEvent::MovementStop) == ResponseType::AllMovementStopped,
        response_to(SystemEvent::ImageCaptured) == ResponseType::ImageCaptured,
        response_to(SystemEvent::AutoCaptureStarted) == ResponseType::CameraCapturingChanged(true),
        response_to(SystemEvent::AutoCaptureStopped) == ResponseType::CameraCapturingChanged(
            false,
        ),
        response_to(SystemEvent::SystemStateInfo(state)) == ResponseType::StateMessage(state),
        response_to(SystemEvent::StepComplete(rotations, offset)) is HeightChanged,
        response_to(SystemEvent::RotationComplete(rotations)) == response_to(
            SystemEvent::StepComplete(rotations, 0),
        ),
{
}

/// The tracker's height runs from 0% at the bottom to 100% at the top, and
/// grows with the position.
pub proof fn lemma_height_bounds(rotations: int, offset: int, rotations2: int, offset2: int)
    requires
        0 <= rotations * STEPS_PER_ROTATION + offset,
        rotations * STEPS_PER_ROTATION + offset <= rotations2 * STEPS_PER_ROTATION + offset2,
        rotations2 * STEPS_PER_ROTATION + offset2 <= MAX_ROTATIONS * STEPS_PER_ROTATION,
    ensures
        height_percentage(0, 0) == 0,
        height_percentage(MAX_ROTATIONS as int, 0) == 100,
        0 <= height_percentage(rotations, offset) <= height_percentage(rotations2, offset2) <= 100,
{
    let a = rotations * STEPS_PER_ROTATION + offset;
    let b = rotations2 * STEPS_PER_ROTATION + offset2;
    let m = MAX_ROTATIONS * STEPS_PER_ROTATION;
    assert(m == 320000);
    assert(0 <= a * 100 / m <= b * 100 / m <= 100) by (nonlinear_arith)
        requires
            0 <= a <= b <= m,
            m == 320000,
    ;
}

} // verus!
