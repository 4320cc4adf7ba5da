use tui_core::{Clock, Error};

#[test]
fn periods_are_reciprocals_of_rates() {
    let clock = Clock::new(60, 10).unwrap();
    assert_eq!(clock.frame_period(), 16_666_666);
    assert_eq!(clock.tick_period(), 100_000_000);
    let clock = Clock::new(1, 1_000_000_000).unwrap();
    assert_eq!(clock.frame_period(), 1_000_000_000);
    assert_eq!(clock.tick_period(), 1);
    let clock = Clock::new(3, 7).unwrap();
    assert_eq!(clock.frame_period(), 333_333_333);
    assert_eq!(clock.tick_period(), 142_857_142);
}

#[test]
fn zero_rate_is_a_config_error() {
    assert_eq!(Clock::new(0, 10).err(), Some(Error::Config));
    assert_eq!(Clock::new(60, 0).err(), Some(Error::Config));
    assert_eq!(Clock::new(0, 0).err(), Some(Error::Config));
}

#[test]
fn rate_above_one_per_nanosecond_is_a_config_error() {
    assert_eq!(Clock::new(1_000_000_001, 10).err(), Some(Error::Config));
    assert_eq!(Clock::new(60, u32::MAX).err(), Some(Error::Config));
}

#[test]
fn periods_are_kept() {
    let clock = Clock::from_periods(16_666_667, 100_000_000).unwrap();
    assert_eq!(clock.frame_period(), 16_666_667);
    assert_eq!(clock.tick_period(), 100_000_000);
    assert_eq!(Clock::from_periods(u64::MAX, 1).unwrap().frame_period(), u64::MAX);
}

#[test]
fn zero_period_is_a_config_error() {
    assert_eq!(Clock::from_periods(0, 1).err(), Some(Error::Config));
    assert_eq!(Clock::from_periods(1, 0).err(), Some(Error::Config));
}

#[test]
fn error_messages() {
    assert_eq!(Error::Terminal.message(), "terminal error");
    assert_eq!(Error::Input.message(), "input error");
    assert_eq!(Error::Channel.message(), "channel error");
    assert_eq!(Error::Config.message(), "configuration error");
}
