use rppal::gpio::interrupt::{edge_level, poll_timeout_ms, ready_source, ReadySource};
use rppal::gpio::mem::{devmem_offset, fallback_outcome, FallbackOutcome, MapError};
use rppal::gpio::sysfs::{
    gpio_group, permissions_ok, runs_as_root, ExportStep, ExportWait, DIR_MODE, EXPORT_ATTEMPTS,
    FILE_MODE,
};
use rppal::gpio::{Level, Trigger};
use rppal::spi::segment::delay_us_from_ns;
use rppal::system::{GPIO_OFFSET, PERIPHERAL_BASE_RPI4};

#[test]
fn sysfs_permissions_need_mode_and_group() {
    assert!(permissions_ok(0o040_770, 997, 997));
    assert!(permissions_ok(0o100_770, 997, 997));
    assert!(!permissions_ok(0o100_777, 997, 997));
    assert!(!permissions_ok(0o100_770, 0, 997));
    assert_eq!(DIR_MODE, 0o40770);
    assert_eq!(FILE_MODE, 0o100770);
}

#[test]
fn sysfs_root_and_group_defaults() {
    assert!(runs_as_root(Some(0), 0, 1000));
    assert!(runs_as_root(Some(0), 1000, 0));
    assert!(!runs_as_root(Some(0), 1000, 1000));
    assert!(!runs_as_root(None, 0, 0));
    assert_eq!(gpio_group(Some(997)), 997);
    assert_eq!(gpio_group(None), 0);
}

#[test]
fn export_wait_gives_up_after_limit() {
    let mut wait = ExportWait::new();
    let mut sleeps = 0;
    loop {
        assert!(wait.waiting());
        match wait.step(false) {
            ExportStep::SleepAndRecheck => sleeps += 1,
            ExportStep::SleepAndStop => {
                sleeps += 1;
                break;
            }
            ExportStep::Ready => panic!("no round passed"),
        }
    }
    assert_eq!(sleeps, EXPORT_ATTEMPTS);
    assert!(!wait.waiting());
}

#[test]
fn export_wait_ready_once_checks_pass() {
    let mut wait = ExportWait::new();
    assert_eq!(wait.step(false), ExportStep::SleepAndRecheck);
    assert_eq!(wait.step(false), ExportStep::SleepAndRecheck);
    assert_eq!(wait.step(true), ExportStep::Ready);
    assert!(wait.waiting());
}

#[test]
fn async_interrupt_dispatch() {
    assert_eq!(ready_source(5, 5, 7), ReadySource::Stop);
    assert_eq!(ready_source(7, 5, 7), ReadySource::Event);
    assert_eq!(ready_source(9, 5, 7), ReadySource::Other);
    assert_eq!(ready_source(5, 5, 5), ReadySource::Stop);
    assert_eq!(edge_level(Trigger::RisingEdge), Level::High);
    assert_eq!(edge_level(Trigger::FallingEdge), Level::Low);
}

#[test]
fn gpio_memory_fallback() {
    assert_eq!(fallback_outcome(MapError::Other, None), FallbackOutcome::UseDevMem);
    assert_eq!(
        fallback_outcome(MapError::PermissionDenied, Some(MapError::PermissionDenied)),
        FallbackOutcome::DeniedGpiomem
    );
    assert_eq!(
        fallback_outcome(MapError::Other, Some(MapError::PermissionDenied)),
        FallbackOutcome::DeniedDevMem
    );
    assert_eq!(
        fallback_outcome(MapError::PermissionDenied, Some(MapError::UnknownModel)),
        FallbackOutcome::UnknownModel
    );
    assert_eq!(
        fallback_outcome(MapError::PermissionDenied, Some(MapError::Other)),
        FallbackOutcome::GpiomemError
    );
    assert_eq!(devmem_offset(PERIPHERAL_BASE_RPI4, GPIO_OFFSET), 0xfe20_0000);
    assert_eq!(devmem_offset(u32::MAX, u32::MAX), 2 * (u32::MAX as u64));
}

#[test]
fn spi_delay_from_nanoseconds() {
    assert_eq!(delay_us_from_ns(999), 0);
    assert_eq!(delay_us_from_ns(25_000), 25);
    assert_eq!(delay_us_from_ns(65_536_000), 0);
    assert_eq!(delay_us_from_ns(u32::MAX), (4_294_967u32 % 65_536) as u16);
}

#[test]
fn poll_timeout_in_milliseconds() {
    assert_eq!(poll_timeout_ms(None), -1);
    assert_eq!(poll_timeout_ms(Some((0, 0))), 0);
    assert_eq!(poll_timeout_ms(Some((2, 500))), 2_500);
    assert_eq!(poll_timeout_ms(Some((2_147_484, 0))), (2_147_484_000u64 as u32) as i32);
}
