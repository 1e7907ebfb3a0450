use rppal::hal::{split_delay, timer_expired, Delay};
use rppal::ioctl::{
    gpio_get_chipinfo, gpio_get_lineevent, gpio_v2_get_line, gpio_v2_get_lineinfo, request_code,
    spi_message_request, spi_setting_request,
};

#[test]
fn delay_splitting() {
    let _ = Delay::new();
    assert_eq!(split_delay(0), (0, 0));
    assert_eq!(split_delay(1000), (0, 1000));
    assert_eq!(split_delay(u32::MAX as u64), (0, u32::MAX));
    assert_eq!(split_delay(u32::MAX as u64 + 1), (1, 1));
    assert_eq!(split_delay(2 * u32::MAX as u64), (1, u32::MAX));
    let (full, last) = split_delay(u64::MAX);
    assert_eq!(full as u128 * u32::MAX as u128 + last as u128, u64::MAX as u128);
}

#[test]
fn timers() {
    assert!(timer_expired(10, 10));
    assert!(!timer_expired(9, 10));
}

#[test]
fn ioctl_request_numbers() {
    assert_eq!(request_code(2, 0xB4, 1, 68), 0x8044_B401);
    assert_eq!(gpio_get_chipinfo(), 0x8044_B401);
    assert_eq!(gpio_v2_get_lineinfo(), 0xC100_B405);
    assert_eq!(gpio_v2_get_line(), 0xC250_B407);
    assert_eq!(gpio_get_lineevent(), 0xC030_B404);
    assert_eq!(spi_setting_request(true, 1), 0x8001_6B01);
    assert_eq!(spi_setting_request(false, 4), 0x4004_6B04);
    assert_eq!(spi_message_request(1), 0x4020_6B00);
}
