use vstd::prelude::*;

verus! {

/// Microsteps per full turn of the motor (200 full steps, 16x microstepping).
pub const STEPS_PER_ROTATION: u16 = 200 * 16;

/// Turns of the threaded rod between the bottom and the top of the tracker.
/// This is the travel that the limit checks (`max_reached`) and the reported
/// height in percent rest on.
pub const MAX_ROTATIONS: u16 = 100;

/// One point of the tracking speed profile: from `rotations` turns and
/// `offset_steps` steps on, the motor runs at `steps_per_second`.
#[derive(Clone, Copy, Debug, PartialEq, Eq, Structural)]
pub struct RotationConfigData {
    pub rotations: u16,
    pub offset_steps: u16,
    pub steps_per_second: u16,
}

/// Position of the motor, counted in whole turns and the steps of the
/// current turn, together with the tracking speed profile.
pub struct RotationState {
    steps_per_second: u16,
    rotations: u16,
    rotation_offset: u16,
    next_speed_rotations: u16,
    next_speed_rotation_offset: u16,
    next_speed_rotation_speed: u16,
    speed_config: [RotationConfigData; 9],
}

/// A motor at rest at position zero that has not started following the
/// speed profile `speed_config`.
pub open spec fn initial_rotation_state(speed_config: Seq<RotationConfigData>) -> RotationStateView {
    RotationStateView {
        steps_per_second: 0,
        rotations: 0,
        rotation_offset: 0,
        next_speed_change: RotationConfigData { rotations: 0, offset_steps: 0, steps_per_second: 0 },
        speed_config,
    }
}

/// Position after one step up from (`rotations`, `offset`): a turn has
/// `STEPS_PER_ROTATION` steps, so from its last step the offset wraps to zero
/// on the next turn.
pub open spec fn position_after_increment(rotations: int, offset: int) -> (int, int) {
    if offset >= STEPS_PER_ROTATION - 1 {
        (rotations + 1, 0)
    } else {
        (rotations, offset + 1)
    }
}

/// Position after one step down from (`rotations`, `offset`): from offset
/// zero it goes to the last step of the turn below.
pub open spec fn position_after_decrement(rotations: int, offset: int) -> (int, int) {
    if offset <= 0 {
        (rotations - 1, STEPS_PER_ROTATION - 1)
    } else {
        (rotations, offset - 1)
    }
}

/// The abstract value of a `RotationState`.
pub struct RotationStateView {
    pub steps_per_second: u16,
    pub rotations: u16,
    pub rotation_offset: u16,
    /// The point of the speed profile at which the speed changes next.
    pub next_speed_change: RotationConfigData,
    /// The tracking speed profile.
    pub speed_config: Seq<RotationConfigData>,
}

impl RotationStateView {
    /// Whether tracking has not started yet: no next change point is set.
    pub open spec fn profile_not_started(self) -> bool {
        self.next_speed_change.rotations == 0 && self.next_speed_change.offset_steps == 0
    }

    /// Whether the motor has reached the next change point of the profile.
    pub open spec fn change_point_reached(self) -> bool {
        &&& self.rotations >= self.next_speed_change.rotations
        &&& self.rotation_offset >= self.next_speed_change.offset_steps
    }

    /// This state with the motor at position (`rotations`, `offset`).
    pub open spec fn at_position(self, position: (int, int)) -> RotationStateView {
        RotationStateView {
            rotations: position.0 as u16,
            rotation_offset: position.1 as u16,
            ..self
        }
    }

    /// Whether the motor is at the top of the tracker's travel.
    pub open spec fn at_top(self) -> bool {
        self.rotations >= MAX_ROTATIONS
    }

    /// Whether the motor is at the bottom of the tracker's travel.
    pub open spec fn at_bottom(self) -> bool {
        self.rotations == 0 && self.rotation_offset == 0
    }

    /// This state after following the speed profile once: before tracking
    /// starts, the speed of the first point and the second point as the next
    /// change; once the next change point is reached, its speed and the first
    /// point beyond it as the next change (the same point when there is none);
    /// otherwise no change.
    pub open spec fn after_speed_update(self) -> RotationStateView {
        if self.profile_not_started() {
            RotationStateView {
                steps_per_second: self.speed_config[0].steps_per_second,
                next_speed_change: self.speed_config[1],
                ..self
            }
        } else if self.change_point_reached() {
            RotationStateView {
                steps_per_second: self.next_speed_change.steps_per_second,
                next_speed_change: next_point_after(self.speed_config, self.next_speed_change),
                ..self
            }
        } else {
            self
        }
    }
}

impl View for RotationState {
    type V = RotationStateView;

    closed spec fn view(&self) -> RotationStateView {
        RotationStateView {
            steps_per_second: self.steps_per_second,
            rotations: self.rotations,
            rotation_offset: self.rotation_offset,
            next_speed_change: RotationConfigData {
                rotations: self.next_speed_rotations,
                offset_steps: self.next_speed_rotation_offset,
                steps_per_second: self.next_speed_rotation_speed,
            },
            speed_config: self.speed_config@,
        }
    }
}

/// Whether profile point `p` lies beyond `current`: at least as many turns
/// and strictly more offset steps.
pub open spec fn is_later_point(p: RotationConfigData, current: RotationConfigData) -> bool {
    p.rotations >= current.rotations && p.offset_steps > current.offset_steps
}

/// Whether `i` is the first index of `config` holding a point beyond `current`.
pub open spec fn is_first_later_index(
    config: Seq<RotationConfigData>,
    current: RotationConfigData,
    i: int,
) -> bool {
    &&& 0 <= i < config.len()
    &&& is_later_point(config[i], current)
    &&& forall|j: int| 0 <= j < i ==> !is_later_point(config[j], current)
}

/// The first point of `config` beyond `current`, or `current` itself when
/// there is none.
pub open spec fn next_point_after(
    config: Seq<RotationConfigData>,
    current: RotationConfigData,
) -> RotationConfigData {
    if exists|i: int| is_first_later_index(config, current, i) {
        config[choose|i: int| is_first_later_index(config, current, i)]
    } else {
        current
    }
}

/// At most one index is the first one beyond a point.
pub proof fn lemma_first_later_index_unique(
    config: Seq<RotationConfigData>,
    current: RotationConfigData,
    i: int,
    k: int,
)
    requires
        is_first_later_index(config, current, i),
        is_first_later_index(config, current, k),
    ensures
        i == k,
{
    if i < k {
        assert(!is_later_point(config[i], current));
    } else if k < i {
        assert(!is_later_point(config[k], current));
    }
}

/// The number of steps from position zero to (`rotations`, `offset`).
pub open spec fn total_steps(position: (int, int)) -> int {
    position.0 * STEPS_PER_ROTATION + position.1
}

/// A step down undoes a step up.
pub proof fn lemma_decrement_undoes_increment(rotations: int, offset: int)
    requires
        0 <= offset < STEPS_PER_ROTATION,
    ensures
        ({
            let up = position_after_increment(rotations, offset);
            position_after_decrement(up.0, up.1) == (rotations, offset)
        }),
{
}

/// A step up undoes a step down.
pub proof fn lemma_increment_undoes_decrement(rotations: int, offset: int)
    requires
        0 <= offset < STEPS_PER_ROTATION,
    ensures
        ({
            let down = position_after_decrement(rotations, offset);
            position_after_increment(down.0, down.1) == (rotations, offset)
        }),
{
}

/// A turn has `STEPS_PER_ROTATION` steps: from an offset within a turn, a
/// step up adds one step to the total and a step down takes one away, and
/// either ends at an offset within a turn.
pub proof fn lemma_steps_count_one(rotations: int, offset: int)
    requires
        0 <= offset < STEPS_PER_ROTATION,
    ensures
        0 <= position_after_increment(rotations, offset).1 < STEPS_PER_ROTATION,
        0 <= position_after_decrement(rotations, offset).1 < STEPS_PER_ROTATION,
        total_steps(position_after_increment(rotations, offset)) == total_steps(
            (rotations, offset),
        ) + 1,
        total_steps(position_after_decrement(rotations, offset)) == total_steps(
            (rotations, offset),
        ) - 1,
{
}

/// Following the speed profile never moves the motor, never changes the
/// profile, and never moves the next change point backwards: neither its
/// turns nor its offset decrease.
pub proof fn lemma_speed_update_moves_forward(state: RotationStateView)
    ensures
        state.after_speed_update().rotations == state.rotations,
        state.after_speed_update().rotation_offset == state.rotation_offset,
        state.after_speed_update().speed_config == state.speed_config,
        state.after_speed_update().next_speed_change.rotations >= state.next_speed_change.rotations,
        state.after_speed_update().next_speed_change.offset_steps
            >= state.next_speed_change.offset_steps,
{
    if !state.profile_not_started() && state.change_point_reached() {
        let config = state.speed_config;
        let current = state.next_speed_change;
        if exists|i: int| is_first_later_index(config, current, i) {
            let i = choose|i: int| is_first_later_index(config, current, i);
            assert(is_later_point(config[i], current));
        }
    }
}

/// Before the profile has started (no change point set), following it takes
/// the first point's speed, whatever the current speed, and aims at the
/// second point.
pub proof fn lemma_profile_starts_at_first_point(state: RotationStateView)
    requires
        state.next_speed_change.rotations == 0,
        state.next_speed_change.offset_steps == 0,
    ensures
        state.after_speed_update().steps_per_second == state.speed_config[0].steps_per_second,
        state.after_speed_update().next_speed_change == state.speed_config[1],
        state.after_speed_update().rotations == state.rotations,
        state.after_speed_update().rotation_offset == state.rotation_offset,
{
}

/// Until the motor reaches the change point that has been set, following
/// the profile changes nothing.
pub proof fn lemma_profile_waits_for_change_point(state: RotationStateView)
    requires
        !(state.next_speed_change.rotations == 0 && state.next_speed_change.offset_steps == 0),
        state.rotations < state.next_speed_change.rotations || state.rotation_offset
            < state.next_speed_change.offset_steps,
    ensures
        state.after_speed_update() == state,
{
}

/// Once a change point `c` has been set and reached, following the profile
/// takes `c`'s speed and aims at the first point `p` of the profile (in its
/// order) with at least as many turns as `c` and strictly more offset steps,
/// a point in the same turn included; when there is none it keeps aiming at
/// `c`.
pub proof fn lemma_profile_takes_first_later_point(state: RotationStateView, i: int)
    requires
        !(state.next_speed_change.rotations == 0 && state.next_speed_change.offset_steps == 0),
        state.rotations >= state.next_speed_change.rotations,
        state.rotation_offset >= state.next_speed_change.offset_steps,
    ensures
        state.after_speed_update().steps_per_second == state.next_speed_change.steps_per_second,
        (0 <= i < state.speed_config.len() && state.speed_config[i].rotations
            >= state.next_speed_change.rotations && state.speed_config[i].offset_steps
            > state.next_speed_change.offset_steps && (forall|j: int|
            0 <= j < i ==> !(state.speed_config[j].rotations >= state.next_speed_change.rotations
                && state.speed_config[j].offset_steps > state.next_speed_change.offset_steps)))
            ==> state.after_speed_update().next_speed_change == state.speed_config[i],
        (forall|j: int|
            0 <= j < state.speed_config.len() ==> !(state.speed_config[j].rotations
                >= state.next_speed_change.rotations && state.speed_config[j].offset_steps
                > state.next_speed_change.offset_steps))
            ==> state.after_speed_update().next_speed_change == state.next_speed_change,
{
    let config = state.speed_config;
    let current = state.next_speed_change;
    if 0 <= i < config.len() && is_later_point(config[i], current) && (forall|j: int|
        0 <= j < i ==> !is_later_point(config[j], current)) {
        assert(is_first_later_index(config, current, i));
        let k = choose|k: int| is_first_later_index(config, current, k);
        lemma_first_later_index_unique(config, current, i, k);
    }
    if forall|j: int| 0 <= j < config.len() ==> !is_later_point(config[j], current) {
        assert(!exists|k: int| is_first_later_index(config, current, k));
    }
}

impl RotationState {
    /// A motor at rest at position zero, with the given speed profile.
    pub fn new(speed_config: [RotationConfigData; 9]) -> (state: Self)
        ensures
            state@ == initial_rotation_state(speed_config@),
    {
        RotationState {
            steps_per_second: 0,
            rotations: 0,
            rotation_offset: 0,
            next_speed_rotations: 0,
            next_speed_rotation_offset: 0,
            next_speed_rotation_speed: 0,
            speed_config,
        }
    }

    /// Counts one step up and returns the new position.
    pub fn increment_step(&mut self) -> (position: (u16, u16))
        requires
            old(self)@.rotation_offset < STEPS_PER_ROTATION - 1 || old(self)@.rotations
                < u16::MAX,
        ensures
            final(self)@ == old(self)@.at_position(
                position_after_increment(old(self)@.rotations as int, old(self)@.rotation_offset as int),
            ),
            position == (final(self)@.rotations, final(self)@.rotation_offset),
    {
        if self.rotation_offset >= STEPS_PER_ROTATION - 1 {
            self.rotation_offset = 0;
            self.rotations = self.rotations + 1;
        } else {
            self.rotation_offset = self.rotation_offset + 1;
        }
        (self.rotations, self.rotation_offset)
    }

    /// Counts one step down and returns the new position.
    pub fn decrement_step(&mut self) -> (position: (u16, u16))
        requires
            old(self)@.rotation_offset > 0 || old(self)@.rotations > 0,
        ensures
            final(self)@ == old(self)@.at_position(
                position_after_decrement(old(self)@.rotations as int, old(self)@.rotation_offset as int),
            ),
            position == (final(self)@.rotations, final(self)@.rotation_offset),
    {
        if self.rotation_offset <= 0 {
            self.rotation_offset = STEPS_PER_ROTATION - 1;
            self.rotations = self.rotations - 1;
        } else {
            self.rotation_offset = self.rotation_offset - 1;
        }
        (self.rotations, self.rotation_offset)
    }

    /// Follows the speed profile (see `RotationStateView::after_speed_update`).
    pub fn update_speed(&mut self)
        ensures
            final(self)@ == old(self)@.after_speed_update(),
    {
        if self.next_speed_rotation_offset == 0 && self.next_speed_rotations == 0 {
            self.steps_per_second = self.speed_config[0].steps_per_second;
            self.next_speed_rotations = self.speed_config[1].rotations;
            self.next_speed_rotation_offset = self.speed_config[1].offset_steps;
            self.next_speed_rotation_speed = self.speed_config[1].steps_per_second;
        } else if self.rotations >= self.next_speed_rotations && self.rotation_offset
            >= self.next_speed_rotation_offset {
            self.steps_per_second = self.next_speed_rotation_speed;
            let ghost config = self.speed_config@;
            let ghost current = self@.next_speed_change;
            let mut i: usize = 0;
            while i < 9
                invariant
                    0 <= i <= 9,
                    config == self.speed_config@,
                    config.len() == 9,
                    current == self@.next_speed_change,
                    current == old(self)@.next_speed_change,
                    !old(self)@.profile_not_started(),
                    old(self)@.change_point_reached(),
                    self@.rotations == old(self)@.rotations,
                    self@.rotation_offset == old(self)@.rotation_offset,
                    self@.speed_config == old(self)@.speed_config,
                    self@.steps_per_second == old(self)@.next_speed_change.steps_per_second,
                    forall|j: int| 0 <= j < i ==> !is_later_point(config[j], current),
                decreases 9 - i,
            {
                let data = self.speed_config[i];
                if data.rotations >= self.next_speed_rotations && data.offset_steps
                    > self.next_speed_rotation_offset {
                    proof {
                        assert(is_first_later_index(config, current, i as int));
                        let k = choose|k: int| is_first_later_index(config, current, k);
                        lemma_first_later_index_unique(config, current, i as int, k);
                    }
                    self.next_speed_rotations = data.rotations;
                    self.next_speed_rotation_offset = data.offset_steps;
                    self.next_speed_rotation_speed = data.steps_per_second;
                    return;
                }
                i = i + 1;
            }
            proof {
                assert forall|k: int| !is_first_later_index(config, current, k) by {
                    if is_first_later_index(config, current, k) {
                        assert(!is_later_point(config[k], current));
                    }
                }
            }
        }
    }

    /// Whether the motor is at the top of the tracker's travel.
    pub fn max_reached(&self) -> (reached: bool)
        ensures
            reached == self@.at_top(),
    {
        self.rotations >= MAX_ROTATIONS
    }

    /// Whether the motor is at the bottom of the tracker's travel.
    pub fn min_reached(&self) -> (reached: bool)
        ensures
            reached == self@.at_bottom(),
    {
        self.rotations == 0 && self.rotation_offset == 0
    }

    /// Puts the motor back at rest at position zero, to follow the speed
    /// profile from its start again.
    pub fn reset(&mut self)
        ensures
            final(self)@ == initial_rotation_state(old(self)@.speed_config),
    {
        self.steps_per_second = 0;
        self.rotations = 0;
        self.rotation_offset = 0;
        self.next_speed_rotations = 0;
        self.next_speed_rotation_offset = 0;
        self.next_speed_rotation_speed = 0;
    }

    /// Sets the motor speed.
    pub fn set_speed(&mut self, steps_per_second: u16)
        ensures
            final(self)@ == (RotationStateView { steps_per_second, ..old(self)@ }),
    {
        self.steps_per_second = steps_per_second;
    }

    /// The current motor speed in steps per second.
    pub fn steps_per_second(&self) -> (speed: u16)
        ensures
            speed == self@.steps_per_second,
    {
        self.steps_per_second
    }

    /// The current position: whole turns and the steps of the current turn.
    pub fn get_rotation(&self) -> (position: (u16, u16))
        ensures
            position == (self@.rotations, self@.rotation_offset),
    {
        (self.rotations, self.rotation_offset)
    }
}

} // verus!
