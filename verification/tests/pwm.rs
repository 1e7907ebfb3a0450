use rppal::pwm::{
    configure_writes, duration_nanos, parse_enabled, parse_polarity, parse_sysfs_u64, Channel,
    Error, Polarity, Pwm, PwmWrite,
};
use rppal::system::{DeviceInfo, Error as SystemError, Model};
use std::convert::TryFrom;

#[test]
fn channel_numbers() {
    assert_eq!(Channel::try_from(2).ok(), Some(Channel::Pwm2));
    assert!(matches!(Channel::try_from(4), Err(Error::InvalidChannel)));
    assert_eq!(Channel::Pwm3.index(), 3);
    assert_eq!(Channel::Pwm1.as_str(), "Pwm1");
}

#[test]
fn durations_in_nanoseconds() {
    assert_eq!(duration_nanos(0, 20_000_000), 20_000_000);
    assert_eq!(duration_nanos(2, 5), 2_000_000_005);
    assert_eq!(duration_nanos(u64::MAX, 0), u64::MAX);
    assert_eq!(duration_nanos(18_446_744_073, 999_999_999), u64::MAX);
}

#[test]
fn sysfs_numbers() {
    assert_eq!(parse_sysfs_u64("20000000\n"), 20_000_000);
    assert_eq!(parse_sysfs_u64("  +42 \t"), 42);
    assert_eq!(parse_sysfs_u64("\u{a0}7\u{3000}"), 7);
    assert_eq!(parse_sysfs_u64(""), 0);
    assert_eq!(parse_sysfs_u64("+"), 0);
    assert_eq!(parse_sysfs_u64("-1"), 0);
    assert_eq!(parse_sysfs_u64("12a"), 0);
    assert_eq!(parse_sysfs_u64("18446744073709551615"), u64::MAX);
    assert_eq!(parse_sysfs_u64("18446744073709551616"), 0);
}

#[test]
fn sysfs_polarity_and_enable() {
    assert_eq!(parse_polarity("normal\n"), Polarity::Normal);
    assert_eq!(parse_polarity("inversed\n"), Polarity::Inverse);
    assert_eq!(parse_polarity("norma"), Polarity::Inverse);
    assert_eq!(Polarity::Normal.sysfs_text(), "normal");
    assert_eq!(Polarity::Inverse.sysfs_text(), "inversed");
    assert!(!parse_enabled("0\n"));
    assert!(parse_enabled("1\n"));
    assert!(parse_enabled("00"));
}

#[test]
fn configuration_order() {
    assert_eq!(
        configure_writes(20_000_000, 1_500_000, Polarity::Normal, true),
        vec![
            PwmWrite::PulseWidth { nanos: 0, ignore_error: true },
            PwmWrite::Period(20_000_000),
            PwmWrite::PulseWidth { nanos: 1_500_000, ignore_error: false },
            PwmWrite::Polarity(Polarity::Normal),
            PwmWrite::Enable(true),
        ]
    );
    assert_eq!(configure_writes(1, 0, Polarity::Inverse, false).len(), 4);
}

#[test]
fn pwm_channel_state() {
    let info = DeviceInfo::from_model(Model::RaspberryPi4B);
    assert_eq!(info.pwm_chip(), 0);
    let mut pwm = Pwm::new(Ok(info), Channel::Pwm1).unwrap();
    assert_eq!(pwm.chip(), 0);
    assert_eq!(pwm.channel(), 1);
    assert!(pwm.reset_on_drop());
    pwm.set_reset_on_drop(false);
    assert!(!pwm.reset_on_drop());
    let other = Pwm::with_pwmchip(2, 3);
    assert_eq!((other.chip(), other.channel()), (2, 3));
}

#[test]
fn pwm_needs_identified_model() {
    assert!(matches!(
        Pwm::new(Err(SystemError::UnknownModel), Channel::Pwm0),
        Err(Error::UnknownModel)
    ));
    let pwm = Pwm::new(Ok(DeviceInfo::from_model(Model::RaspberryPiZeroW)), Channel::Pwm3).unwrap();
    assert_eq!((pwm.chip(), pwm.channel()), (0, 3));
}
