use heos::data::common::{
    MuteState, NumberOutOfBoundsError, ParseBoundedNumberError, Volume, VolumeStep,
};
use heos::data::quickselect::QuickSelectId;

#[test]
fn volume_is_made_exactly_within_bounds() {
    for n in 0..=100u16 {
        assert_eq!(Volume::new(n).unwrap().get(), n);
    }
    for n in [101u16, 102, 255, 1000, u16::MAX] {
        assert_eq!(
            Volume::new(n).unwrap_err(),
            NumberOutOfBoundsError { value: n, min: 0, max: 100 }
        );
    }
}

#[test]
fn volume_step_is_made_exactly_within_bounds() {
    for n in 0..=10u16 {
        assert_eq!(VolumeStep::new(n).unwrap().get(), n);
    }
    for n in [11u16, 100, u16::MAX] {
        assert_eq!(
            VolumeStep::new(n).unwrap_err(),
            NumberOutOfBoundsError { value: n, min: 0, max: 10 }
        );
    }
    assert_eq!(VolumeStep::default().get(), 5);
}

#[test]
fn quick_select_id_is_made_exactly_within_bounds() {
    for n in 1..=6i64 {
        assert_eq!(QuickSelectId::new(n).unwrap().get(), n);
    }
    for n in [0i64, 7, -1, i64::MAX, i64::MIN] {
        assert_eq!(
            QuickSelectId::new(n).unwrap_err(),
            NumberOutOfBoundsError { value: n, min: 1, max: 6 }
        );
    }
}

#[test]
fn saturating_arithmetic_never_leaves_the_bounds() {
    for start in [0u16, 1, 50, 99, 100] {
        let volume = Volume::new(start).unwrap();
        for step in [0u16, 1, 5, 50, 100, 101, u16::MAX] {
            let up = volume.saturating_add(step).get();
            let down = volume.saturating_sub(step).get();
            assert_eq!(up as u32, (start as u32 + step as u32).min(100));
            assert_eq!(down as i32, (start as i32 - step as i32).max(0));
        }
    }
    let slot = QuickSelectId::new(3).unwrap();
    assert_eq!(slot.saturating_add(2).get(), 5);
    assert_eq!(slot.saturating_add(3).get(), 6);
    assert_eq!(slot.saturating_add(i64::MAX).get(), 6);
    assert_eq!(slot.saturating_add(-5).get(), 1);
    assert_eq!(slot.saturating_add(i64::MIN).get(), 1);
    assert_eq!(slot.saturating_sub(2).get(), 1);
    assert_eq!(slot.saturating_sub(-2).get(), 5);
    assert_eq!(slot.saturating_sub(i64::MIN).get(), 6);
    assert_eq!(slot.saturating_sub(i64::MAX).get(), 1);
}

#[test]
fn extremes_are_the_bounds() {
    assert_eq!(Volume::lowest().get(), Volume::MIN);
    assert_eq!(Volume::highest().get(), Volume::MAX);
    assert_eq!(Volume::MAX, 100);
    assert_eq!(VolumeStep::highest().get(), 10);
    assert_eq!(QuickSelectId::lowest().get(), 1);
    assert_eq!(QuickSelectId::highest().get(), 6);
}

#[test]
fn bounded_numbers_are_read_from_decimal_text() {
    assert_eq!(Volume::parse("0").unwrap().get(), 0);
    assert_eq!(Volume::parse("100").unwrap().get(), 100);
    assert_eq!(Volume::parse("+7").unwrap().get(), 7);
    assert_eq!(
        Volume::parse("101").unwrap_err(),
        ParseBoundedNumberError::OutOfBounds(NumberOutOfBoundsError {
            value: 101,
            min: 0,
            max: 100
        })
    );
    assert_eq!(Volume::parse("65536").unwrap_err(), ParseBoundedNumberError::ParseInt);
    assert_eq!(Volume::parse("-1").unwrap_err(), ParseBoundedNumberError::ParseInt);
    assert_eq!(Volume::parse("loud").unwrap_err(), ParseBoundedNumberError::ParseInt);
    assert_eq!(Volume::parse("").unwrap_err(), ParseBoundedNumberError::ParseInt);
    assert_eq!(QuickSelectId::parse("6").unwrap().get(), 6);
    assert_eq!(
        QuickSelectId::parse("-3").unwrap_err(),
        ParseBoundedNumberError::OutOfBounds(NumberOutOfBoundsError { value: -3, min: 1, max: 6 })
    );
    assert_eq!(QuickSelectId::parse("x").unwrap_err(), ParseBoundedNumberError::ParseInt);
}

#[test]
fn bounded_numbers_are_written_in_decimal() {
    assert_eq!(Volume::new(50).unwrap().to_string(), "50");
    assert_eq!(VolumeStep::default().to_string(), "5");
    assert_eq!(QuickSelectId::new(4).unwrap().to_string(), "4");
}

#[test]
fn mute_state_toggles() {
    assert_eq!(MuteState::On.toggled(), MuteState::Off);
    assert_eq!(MuteState::Off.toggled(), MuteState::On);
}
