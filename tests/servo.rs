use wpilib::hal::{HalError, PeriodMultiplier};
use wpilib::servo::{
    angle_from_position, clamp, default_bounds, position_from_angle, PulseBounds, PwmCommand,
    RawBounds, Servo, SetupAction, FULL_POSITION, MAX_ANGLE, MIN_ANGLE,
};

fn servo() -> Servo {
    Servo::new(3)
}

#[test]
fn angle_round_trips_over_the_domain() {
    for a in [0i64, 1, 2, 999, 45_000, 89_999, 90_000, 123_457, 179_999, 180_000] {
        let mut s = servo();
        s.set_angle(a);
        assert_eq!(s.angle(), Some(a), "angle {}", a);
    }
}

#[test]
fn angle_round_trips_at_every_whole_degree() {
    let mut s = servo();
    for deg in 0..=180i64 {
        s.set_angle(deg * 1000);
        assert_eq!(s.angle(), Some(deg * 1000));
    }
}

#[test]
fn angle_below_domain_acts_as_smallest() {
    for a in [-1i64, -5_000, -180_000, i64::MIN] {
        let mut low = servo();
        let mut zero = servo();
        assert_eq!(low.set_angle(a), zero.set_angle(0));
        assert_eq!(low.get(), zero.get());
    }
}

#[test]
fn angle_above_domain_acts_as_largest() {
    for a in [180_001i64, 200_000, 360_000, i64::MAX] {
        let mut high = servo();
        let mut top = servo();
        assert_eq!(high.set_angle(a), top.set_angle(180_000));
        assert_eq!(high.get(), top.get());
    }
}

#[test]
fn angle_commands_at_ends_and_middle() {
    let mut s = servo();
    assert_eq!(s.set_angle(0), PwmCommand::SetPosition(0));
    assert_eq!(s.set_angle(180_000), PwmCommand::SetPosition(1_000_000));
    assert_eq!(s.set_angle(90_000), PwmCommand::SetPosition(500_000));
    assert_eq!(s.get(), Some(500_000));
}

#[test]
fn angle_bounds_are_fixed() {
    let mut s = servo();
    assert_eq!(s.max_angle(), 180_000);
    assert_eq!(s.min_angle(), 0);
    s.set_angle(42_000);
    s.set_raw(17);
    assert_eq!(s.max_angle(), MAX_ANGLE);
    assert_eq!(s.min_angle(), MIN_ANGLE);
    assert_eq!(s.get_servo_angle_range(), 180_000);
}

#[test]
fn unavailable_channel_fails_setup_without_release() {
    let e = HalError { code: -1029 };
    assert_eq!(Servo::setup_next(0, Err(e)), SetupAction::Fail(e));
}

#[test]
fn setup_configures_bounds_then_multiplier() {
    assert_eq!(
        Servo::setup_next(0, Ok(())),
        SetupAction::Configure(PwmCommand::SetBounds(PulseBounds {
            max_us: 2400,
            deadband_max_us: 0,
            center_us: 0,
            deadband_min_us: 0,
            min_us: 600,
        }))
    );
    assert_eq!(
        Servo::setup_next(1, Ok(())),
        SetupAction::Configure(PwmCommand::SetPeriodMultiplier(PeriodMultiplier::Multiplier4x))
    );
    assert_eq!(Servo::setup_next(2, Ok(())), SetupAction::Ready);
}

#[test]
fn failed_configuration_releases_the_channel() {
    let e = HalError { code: -1098 };
    assert_eq!(Servo::setup_next(1, Err(e)), SetupAction::ReleaseAndFail(e));
    assert_eq!(Servo::setup_next(2, Err(e)), SetupAction::ReleaseAndFail(e));
}

#[test]
fn disabled_output_is_zero_whatever_came_before() {
    let mut s = servo();
    s.set_angle(120_000);
    assert_eq!(s.set_disabled(), PwmCommand::SetDisabled);
    assert_eq!(s.raw(), Some(0));
    assert_eq!(s.get(), None);
    assert_eq!(s.angle(), None);

    let mut t = servo();
    t.set_speed(-400_000);
    t.set_disabled();
    assert_eq!(t.raw(), Some(0));
    assert_eq!(t.speed(), None);
}

#[test]
fn offline_output_is_zero_whatever_came_before() {
    let mut s = servo();
    s.set_raw(1500);
    assert_eq!(s.set_offline(), PwmCommand::SetRaw(0));
    assert_eq!(s.raw(), Some(0));

    let mut t = servo();
    t.set(750_000);
    t.set_offline();
    assert_eq!(t.raw(), Some(0));
    assert_eq!(t.get(), None);
}

#[test]
fn position_passes_through_unchecked() {
    let mut s = servo();
    assert_eq!(s.set(1_500_000), PwmCommand::SetPosition(1_500_000));
    assert_eq!(s.get(), Some(1_500_000));
    assert_eq!(s.angle(), Some(270_000));
}

#[test]
fn new_servo_has_no_command() {
    let s = Servo::new(7);
    assert_eq!(s.channel(), 7);
    assert_eq!(s.get(), None);
    assert_eq!(s.raw(), None);
    assert_eq!(s.speed(), None);
    assert_eq!(s.angle(), None);
}

#[test]
fn configuration_commands_keep_the_output() {
    let mut s = servo();
    s.set(250_000);
    assert_eq!(
        s.set_period_multiplier(PeriodMultiplier::Multiplier2x),
        PwmCommand::SetPeriodMultiplier(PeriodMultiplier::Multiplier2x)
    );
    assert_eq!(s.set_zero_latch(), PwmCommand::LatchZero);
    assert_eq!(s.enable_deadband_elimination(true), PwmCommand::EliminateDeadband(true));
    assert_eq!(
        s.set_bounds(2000, 1550, 1500, 1450, 1000),
        PwmCommand::SetBounds(PulseBounds {
            max_us: 2000,
            deadband_max_us: 1550,
            center_us: 1500,
            deadband_min_us: 1450,
            min_us: 1000,
        })
    );
    assert_eq!(
        s.set_raw_bounds(2000, 1026, 1000, 974, 1),
        PwmCommand::SetRawBounds(RawBounds {
            max: 2000,
            deadband_max: 1026,
            center: 1000,
            deadband_min: 974,
            min: 1,
        })
    );
    assert_eq!(s.get(), Some(250_000));
    assert_eq!(s.channel(), 3);
}

#[test]
fn mapping_values() {
    assert_eq!(clamp(-3), 0);
    assert_eq!(clamp(181_000), 180_000);
    assert_eq!(clamp(77_777), 77_777);
    assert_eq!(position_from_angle(1), 6);
    assert_eq!(position_from_angle(45_000), 250_000);
    assert_eq!(position_from_angle(180_000), FULL_POSITION);
    assert_eq!(angle_from_position(1), 0);
    assert_eq!(angle_from_position(3), 1);
    assert_eq!(angle_from_position(500_000), 90_000);
    assert_eq!(angle_from_position(u32::MAX), 773_094_113);
}

#[test]
fn default_bounds_values() {
    let b = default_bounds();
    assert_eq!(b.max_us, 2400);
    assert_eq!(b.min_us, 600);
    assert_eq!((b.deadband_max_us, b.center_us, b.deadband_min_us), (0, 0, 0));
}

#[test]
fn squelch_masks() {
    assert_eq!(PeriodMultiplier::Multiplier1x.squelch_mask(), 0);
    assert_eq!(PeriodMultiplier::Multiplier2x.squelch_mask(), 1);
    assert_eq!(PeriodMultiplier::Multiplier4x.squelch_mask(), 3);
}
