//! Servo position control: angle and position mapping, channel setup, and the
//! commands each servo operation sends to its pulse output.
//!
//! Angles are in millidegrees. A position is a fraction of the configured pulse
//! range in parts per million: 0 is the shortest pulse, `FULL_POSITION` the
//! longest. Pulse widths are in microseconds.
use vstd::prelude::*;
use crate::hal::{HalError, HalResult, PeriodMultiplier};

verus! {

/// The smallest angle a servo is driven to, in millidegrees.
pub const MIN_ANGLE: i64 = 0;

/// The largest angle a servo is driven to, in millidegrees.
pub const MAX_ANGLE: i64 = 180000;

/// The position of the longest pulse, in parts per million of the pulse range.
pub const FULL_POSITION: u32 = 1000000;

/// The default longest pulse, in microseconds.
pub const DEFAULT_MAX_PULSE_US: i32 = 2400;

/// The default shortest pulse, in microseconds.
pub const DEFAULT_MIN_PULSE_US: i32 = 600;

/// Pulse-width bounds of an output, in microseconds.
#[derive(Clone, Copy, Debug, PartialEq, Eq, Structural)]
pub struct PulseBounds {
    pub max_us: i32,
    pub deadband_max_us: i32,
    pub center_us: i32,
    pub deadband_min_us: i32,
    pub min_us: i32,
}

/// Pulse-width bounds of an output, in the hardware's raw units.
#[derive(Clone, Copy, Debug, PartialEq, Eq, Structural)]
pub struct RawBounds {
    pub max: i32,
    pub deadband_max: i32,
    pub center: i32,
    pub deadband_min: i32,
    pub min: i32,
}

/// A command for a servo's pulse output.
#[derive(Clone, Copy, Debug, PartialEq, Eq, Structural)]
pub enum PwmCommand {
    /// Drive to a position, in parts per million of the pulse range.
    SetPosition(u32),
    /// Drive at a speed, in parts per million between full reverse and full forward.
    SetSpeed(i32),
    /// Drive an unscaled pulse value.
    SetRaw(i32),
    /// Stop driving the output: the raw value becomes zero.
    SetDisabled,
    /// Latch the output at zero for one cycle.
    LatchZero,
    SetPeriodMultiplier(PeriodMultiplier),
    EliminateDeadband(bool),
    SetBounds(PulseBounds),
    SetRawBounds(RawBounds),
}

/// What a servo's output was last commanded to do.
#[derive(Clone, Copy, Debug, PartialEq, Eq, Structural)]
pub enum PwmOutput {
    NotCommanded,
    Position(u32),
    Speed(i32),
    Raw(i32),
}

/// The width of the angle domain, in millidegrees.
pub open spec fn angle_range() -> int {
    MAX_ANGLE - MIN_ANGLE
}

/// An angle brought into the servo's domain.
pub open spec fn clamp_angle(a: int) -> int {
    if a < MIN_ANGLE {
        MIN_ANGLE as int
    } else if a > MAX_ANGLE {
        MAX_ANGLE as int
    } else {
        a
    }
}

/// The position of an angle of the domain: its offset from the smallest angle
/// scaled to the pulse range, rounded to the nearest part per million.
pub open spec fn position_of_angle(a: int) -> int {
    ((a - MIN_ANGLE) * FULL_POSITION + angle_range() / 2) / angle_range()
}

/// The angle of a position: the position scaled to the angle domain, rounded
/// to the nearest millidegree, plus the smallest angle.
pub open spec fn angle_of_position(p: int) -> int {
    (p * angle_range() + FULL_POSITION / 2) / (FULL_POSITION as int) + MIN_ANGLE
}

/// The command that drives a servo to an angle.
pub open spec fn angle_command(a: int) -> PwmCommand {
    PwmCommand::SetPosition(position_of_angle(clamp_angle(a)) as u32)
}

/// What the output does once a command has been performed.
pub open spec fn output_after(prev: PwmOutput, cmd: PwmCommand) -> PwmOutput {
    match cmd {
        PwmCommand::SetPosition(p) => PwmOutput::Position(p),
        PwmCommand::SetSpeed(s) => PwmOutput::Speed(s),
        PwmCommand::SetRaw(v) => PwmOutput::Raw(v),
        PwmCommand::SetDisabled => PwmOutput::Raw(0),
        _ => prev,
    }
}

/// The pulse bounds a servo channel is configured with.
pub open spec fn default_bounds_spec() -> PulseBounds {
    PulseBounds {
        max_us: DEFAULT_MAX_PULSE_US,
        deadband_max_us: 0,
        center_us: 0,
        deadband_min_us: 0,
        min_us: DEFAULT_MIN_PULSE_US,
    }
}

/// The pulse bounds a servo channel is configured with.
pub fn default_bounds() -> (r: PulseBounds)
    ensures
        r == default_bounds_spec(),
{
    PulseBounds {
        max_us: DEFAULT_MAX_PULSE_US,
        deadband_max_us: 0,
        center_us: 0,
        deadband_min_us: 0,
        min_us: DEFAULT_MIN_PULSE_US,
    }
}

/// An angle brought into the servo's domain: below it, the smallest angle;
/// above it, the largest.
pub fn clamp(angle: i64) -> (r: i64)
    ensures
        r == clamp_angle(angle as int),
        MIN_ANGLE <= r <= MAX_ANGLE,
{
    if angle < MIN_ANGLE {
        MIN_ANGLE
    } else if angle > MAX_ANGLE {
        MAX_ANGLE
    } else {
        angle
    }
}

/// The position that an angle of the domain maps to.
pub fn position_from_angle(angle: i64) -> (r: u32)
    requires
        MIN_ANGLE <= angle <= MAX_ANGLE,
    ensures
        r == position_of_angle(angle as int),
        r <= FULL_POSITION,
{
    let range: i64 = MAX_ANGLE - MIN_ANGLE;
    let offset: i64 = angle - MIN_ANGLE;
    assert(0 <= offset * 1000000 <= 180000 * 1000000) by (nonlinear_arith)
        requires
            0 <= offset <= 180000,
    ;
    let scaled: i64 = offset * (FULL_POSITION as i64) + range / 2;
    let p: i64 = scaled / range;
    assert(p <= 1000000) by (nonlinear_arith)
        requires
            p == scaled / 180000,
            scaled <= 180000 * 1000000 + 90000,
    ;
    p as u32
}

/// The angle that a position maps to.
pub fn angle_from_position(position: u32) -> (r: i64)
    ensures
        r == angle_of_position(position as int),
{
    let range: i64 = MAX_ANGLE - MIN_ANGLE;
    let scaled: i64 = (position as i64) * range + (FULL_POSITION as i64) / 2;
    scaled / (FULL_POSITION as i64) + MIN_ANGLE
}

/// What a servo's model holds: the channel it owns and what its output was
/// last commanded to do.
pub struct ServoState {
    pub channel: i32,
    pub output: PwmOutput,
}

/// A servo on one pulse output channel, which it owns for its lifetime.
///
/// Each operation that drives the output updates the servo's model of the
/// output and returns the command for the hardware layer to perform.
#[derive(Debug)]
pub struct Servo {
    channel: i32,
    output: PwmOutput,
}

impl View for Servo {
    type V = ServoState;

    closed spec fn view(&self) -> ServoState {
        ServoState { channel: self.channel, output: self.output }
    }
}

/// The setup of a servo channel: acquiring it, then each configuration command
/// in turn.
pub open spec fn setup_command_spec(step: int) -> PwmCommand {
    if step == 1 {
        PwmCommand::SetBounds(default_bounds_spec())
    } else {
        PwmCommand::SetPeriodMultiplier(PeriodMultiplier::Multiplier4x)
    }
}

/// The number of the last step of a servo channel's setup. Step 0 acquires the
/// channel; the steps after it configure it.
pub const SETUP_LAST_STEP: usize = 2;

/// What to do next while setting up a servo channel.
#[derive(Clone, Copy, Debug, PartialEq, Eq, Structural)]
pub enum SetupAction {
    /// Perform this configuration command; its outcome is that of the next step.
    Configure(PwmCommand),
    /// The channel could not be acquired: fail with this error, holding nothing.
    Fail(HalError),
    /// A configuration command failed: release the channel, then fail with this error.
    ReleaseAndFail(HalError),
    /// The channel is configured: the servo can be made.
    Ready,
}

/// The action after step `step` of a servo's setup ended with `outcome`.
pub open spec fn setup_next_spec(step: int, outcome: HalResult<()>) -> SetupAction {
    match outcome {
        Err(e) => if step == 0 {
            SetupAction::Fail(e)
        } else {
            SetupAction::ReleaseAndFail(e)
        },
        Ok(_) => if step < SETUP_LAST_STEP {
            SetupAction::Configure(setup_command_spec(step + 1))
        } else {
            SetupAction::Ready
        },
    }
}

impl Servo {
    /// The action after step `step` of a channel's setup ended with `outcome`.
    /// Setup acquires the channel (step 0), sets the default pulse bounds
    /// (step 1) and a 4x period multiplier, which eliminates the deadband
    /// (step 2). A failed acquisition fails with nothing held; a failed
    /// configuration releases the channel first.
    pub fn setup_next(step: usize, outcome: HalResult<()>) -> (r: SetupAction)
        requires
            step <= SETUP_LAST_STEP,
        ensures
            r == setup_next_spec(step as int, outcome),
    {
        match outcome {
            Err(e) => if step == 0 {
                SetupAction::Fail(e)
            } else {
                SetupAction::ReleaseAndFail(e)
            },
            Ok(_) => if step == 0 {
                SetupAction::Configure(PwmCommand::SetBounds(default_bounds()))
            } else if step == 1 {
                SetupAction::Configure(
                    PwmCommand::SetPeriodMultiplier(PeriodMultiplier::Multiplier4x),
                )
            } else {
                SetupAction::Ready
            },
        }
    }

    /// A servo on a channel whose setup has completed.
    pub fn new(channel: i32) -> (r: Servo)
        ensures
            r@ == (ServoState { channel, output: PwmOutput::NotCommanded }),
    {
        Servo { channel, output: PwmOutput::NotCommanded }
    }

    /// The channel this servo owns.
    pub fn channel(&self) -> (r: i32)
        ensures
            r == self@.channel,
    {
        self.channel
    }

    fn perform(&mut self, cmd: PwmCommand) -> (r: PwmCommand)
        ensures
            r == cmd,
            final(self)@ == (ServoState {
                channel: old(self)@.channel,
                output: output_after(old(self)@.output, cmd),
            }),
    {
        self.output = match cmd {
            PwmCommand::SetPosition(p) => PwmOutput::Position(p),
            PwmCommand::SetSpeed(v) => PwmOutput::Speed(v),
            PwmCommand::SetRaw(v) => PwmOutput::Raw(v),
            PwmCommand::SetDisabled => PwmOutput::Raw(0),
            _ => self.output,
        };
        cmd
    }

    /// Drives the servo to a position, in parts per million of the pulse
    /// range. The position is passed on as it is.
    pub fn set(&mut self, position: u32) -> (r: PwmCommand)
        ensures
            r == PwmCommand::SetPosition(position),
            final(self)@ == (ServoState {
                channel: old(self)@.channel,
                output: PwmOutput::Position(position),
            }),
    {
        self.perform(PwmCommand::SetPosition(position))
    }

    /// The position the servo was last driven to, if it was last driven by position.
    pub fn get(&self) -> (r: Option<u32>)
        ensures
            r == (match self@.output {
                PwmOutput::Position(p) => Some(p),
                _ => None,
            }),
    {
        match self.output {
            PwmOutput::Position(p) => Some(p),
            _ => None,
        }
    }

    /// Drives the servo to an angle in millidegrees. An angle below the domain
    /// drives it to the smallest angle, one above to the largest.
    pub fn set_angle(&mut self, angle: i64) -> (r: PwmCommand)
        ensures
            r == angle_command(angle as int),
            final(self)@ == (ServoState {
                channel: old(self)@.channel,
                output: output_after(old(self)@.output, r),
            }),
    {
        let position = position_from_angle(clamp(angle));
        self.perform(PwmCommand::SetPosition(position))
    }

    /// The angle of the position the servo was last driven to, if it was last
    /// driven by position.
    pub fn angle(&self) -> (r: Option<i64>)
        ensures
            r == (match self@.output {
                PwmOutput::Position(p) => Some(angle_of_position(p as int) as i64),
                _ => None,
            }),
    {
        match self.output {
            PwmOutput::Position(p) => Some(angle_from_position(p)),
            _ => None,
        }
    }

    /// The largest angle, in millidegrees.
    pub fn max_angle(&self) -> (r: i64)
        ensures
            r == MAX_ANGLE,
    {
        MAX_ANGLE
    }

    /// The smallest angle, in millidegrees.
    pub fn min_angle(&self) -> (r: i64)
        ensures
            r == MIN_ANGLE,
    {
        MIN_ANGLE
    }

    /// The width of the angle domain, in millidegrees.
    pub fn get_servo_angle_range(&self) -> (r: i64)
        ensures
            r == angle_range(),
    {
        MAX_ANGLE - MIN_ANGLE
    }

    /// Takes the output offline: the raw value becomes zero.
    pub fn set_offline(&mut self) -> (r: PwmCommand)
        ensures
            r == PwmCommand::SetRaw(0),
            final(self)@ == (ServoState { channel: old(self)@.channel, output: PwmOutput::Raw(0) }),
    {
        self.perform(PwmCommand::SetRaw(0))
    }

    /// Stops driving the output: the raw value becomes zero.
    pub fn set_disabled(&mut self) -> (r: PwmCommand)
        ensures
            r == PwmCommand::SetDisabled,
            final(self)@ == (ServoState { channel: old(self)@.channel, output: PwmOutput::Raw(0) }),
    {
        self.perform(PwmCommand::SetDisabled)
    }

    /// Drives an unscaled pulse value.
    pub fn set_raw(&mut self, value: i32) -> (r: PwmCommand)
        ensures
            r == PwmCommand::SetRaw(value),
            final(self)@ == (ServoState {
                channel: old(self)@.channel,
                output: PwmOutput::Raw(value),
            }),
    {
        self.perform(PwmCommand::SetRaw(value))
    }

    /// The raw value the output was last set to, if it was last set by raw
    /// value, by going offline or by being disabled.
    pub fn raw(&self) -> (r: Option<i32>)
        ensures
            r == (match self@.output {
                PwmOutput::Raw(v) => Some(v),
                _ => None,
            }),
    {
        match self.output {
            PwmOutput::Raw(v) => Some(v),
            _ => None,
        }
    }

    /// Drives the output at a speed, in parts per million between full reverse
    /// and full forward. The speed is passed on as it is.
    pub fn set_speed(&mut self, speed: i32) -> (r: PwmCommand)
        ensures
            r == PwmCommand::SetSpeed(speed),
            final(self)@ == (ServoState {
                channel: old(self)@.channel,
                output: PwmOutput::Speed(speed),
            }),
    {
        self.perform(PwmCommand::SetSpeed(speed))
    }

    /// The speed the output was last driven at, if it was last driven by speed.
    pub fn speed(&self) -> (r: Option<i32>)
        ensures
            r == (match self@.output {
                PwmOutput::Speed(v) => Some(v),
                _ => None,
            }),
    {
        match self.output {
            PwmOutput::Speed(v) => Some(v),
            _ => None,
        }
    }

    /// Sets how often the output pulses, as a multiple of the base period.
    pub fn set_period_multiplier(&mut self, mult: PeriodMultiplier) -> (r: PwmCommand)
        ensures
            r == PwmCommand::SetPeriodMultiplier(mult),
            final(self)@ == old(self)@,
    {
        self.perform(PwmCommand::SetPeriodMultiplier(mult))
    }

    /// Latches the output at zero for one cycle.
    pub fn set_zero_latch(&mut self) -> (r: PwmCommand)
        ensures
            r == PwmCommand::LatchZero,
            final(self)@ == old(self)@,
    {
        self.perform(PwmCommand::LatchZero)
    }

    /// Sets whether the output gives the center pulse for values inside the deadband.
    pub fn enable_deadband_elimination(&mut self, eliminate_deadband: bool) -> (r: PwmCommand)
        ensures
            r == PwmCommand::EliminateDeadband(eliminate_deadband),
            final(self)@ == old(self)@,
    {
        self.perform(PwmCommand::EliminateDeadband(eliminate_deadband))
    }

    /// Sets the pulse-width bounds, in microseconds.
    pub fn set_bounds(
        &mut self,
        max: i32,
        deadband_max: i32,
        center: i32,
        deadband_min: i32,
        min: i32,
    ) -> (r: PwmCommand)
        ensures
            r == PwmCommand::SetBounds(
                PulseBounds {
                    max_us: max,
                    deadband_max_us: deadband_max,
                    center_us: center,
                    deadband_min_us: deadband_min,
                    min_us: min,
                },
            ),
            final(self)@ == old(self)@,
    {
        self.perform(
            PwmCommand::SetBounds(
                PulseBounds {
                    max_us: max,
                    deadband_max_us: deadband_max,
                    center_us: center,
                    deadband_min_us: deadband_min,
                    min_us: min,
                },
            ),
        )
    }

    /// Sets the pulse-width bounds, in the hardware's raw units.
    pub fn set_raw_bounds(
        &mut self,
        max: i32,
        deadband_max: i32,
        center: i32,
        deadband_min: i32,
        min: i32,
    ) -> (r: PwmCommand)
        ensures
            r == PwmCommand::SetRawBounds(
                RawBounds { max, deadband_max, center, deadband_min, min },
            ),
            final(self)@ == old(self)@,
    {
        self.perform(
            PwmCommand::SetRawBounds(RawBounds { max, deadband_max, center, deadband_min, min }),
        )
    }
}

/// Driving a servo to an angle of its domain and reading the angle back gives
/// that angle exactly.
pub proof fn lemma_angle_round_trip(a: int)
    requires
        MIN_ANGLE <= a <= MAX_ANGLE,
    ensures
        angle_command(a) == PwmCommand::SetPosition(position_of_angle(a) as u32),
        0 <= position_of_angle(a) <= FULL_POSITION,
        angle_of_position(position_of_angle(a)) == a,
        angle_of_position((position_of_angle(a) as u32) as int) == a,
{
    let p = position_of_angle(a);
    assert(0 <= p <= 1000000 && p * 180000 <= a * 1000000 + 90000 && a * 1000000 - 90000 < p
        * 180000) by (nonlinear_arith)
        requires
            0 <= a <= 180000,
            p == (a * 1000000 + 90000) / 180000,
    ;
    assert((p * 180000 + 500000) / 1000000 == a) by (nonlinear_arith)
        requires
            p * 180000 <= a * 1000000 + 90000,
            a * 1000000 - 90000 < p * 180000,
    ;
}

/// Driving a servo to an angle below its domain does what driving it to the
/// smallest angle does; above its domain, what driving it to the largest does.
pub proof fn lemma_set_angle_clamps(a: int)
    ensures
        a < MIN_ANGLE ==> angle_command(a) == angle_command(MIN_ANGLE as int),
        a > MAX_ANGLE ==> angle_command(a) == angle_command(MAX_ANGLE as int),
{
}

/// Whatever a servo's output did before, disabling it or taking it offline
/// leaves its raw value at zero.
pub proof fn lemma_stop_zeroes_output(prev: PwmOutput)
    ensures
        output_after(prev, PwmCommand::SetDisabled) == PwmOutput::Raw(0),
        output_after(prev, PwmCommand::SetRaw(0)) == PwmOutput::Raw(0),
{
}

/// When a servo's channel cannot be acquired, for instance because it is
/// already claimed, setup fails with that error, configures nothing and holds
/// nothing to release.
pub proof fn lemma_unavailable_channel_fails(e: HalError)
    ensures
        setup_next_spec(0, Err(e)) == SetupAction::Fail(e),
{
}

} // verus!
