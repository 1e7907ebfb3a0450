use rppal::i2c::{
    check_slave_address, clock_speed_from_bytes, default_bus, i2c_block_request_len,
    quick_command_direction, read_segment_flags, swap_bytes, timeout_ticks, write_read_needed,
    write_segment_flags, Capabilities, Error, SmbusBuffer, SmbusReadWrite, SmbusSize,
};
use rppal::system::Model;

#[test]
fn capabilities_bits() {
    let caps = Capabilities::new(0x01 | 0x08 | 0x0100_0000 | 0x0800_0000);
    assert!(caps.i2c());
    assert!(caps.smbus_pec());
    assert!(caps.smbus_block_read());
    assert!(caps.i2c_block_write());
    assert!(!caps.addr_10bit());
    assert!(!caps.smbus_block_write());
    assert!(!caps.i2c_block_read());
    assert!(Capabilities::new(0x02).addr_10bit());
    assert!(Capabilities::new(0x1000_0000).smbus_host_notify());
    assert!(Capabilities::new(0x8000).smbus_block_process_call());
}

#[test]
fn slave_address_rules() {
    assert!(check_slave_address(false, 0x08).is_ok());
    assert!(check_slave_address(false, 0x77).is_ok());
    assert!(matches!(check_slave_address(false, 0x07), Err(Error::InvalidSlaveAddress(0x07))));
    assert!(matches!(check_slave_address(false, 0x78), Err(Error::InvalidSlaveAddress(0x78))));
    assert!(matches!(check_slave_address(false, 0x80), Err(Error::InvalidSlaveAddress(0x80))));
    assert!(check_slave_address(true, 0x03FF).is_ok());
    assert!(check_slave_address(true, 0x0000).is_ok());
    assert!(matches!(check_slave_address(true, 0x0400), Err(Error::InvalidSlaveAddress(0x0400))));
}

#[test]
fn default_bus_by_model() {
    assert_eq!(default_bus(Model::RaspberryPiBRev1), 0);
    assert_eq!(default_bus(Model::RaspberryPi4B), 1);
}

#[test]
fn word_swapping() {
    assert_eq!(swap_bytes(0x1234), 0x3412);
    assert_eq!(swap_bytes(swap_bytes(0xBEEF)), 0xBEEF);
}

#[test]
fn clock_speed_is_big_endian() {
    assert_eq!(clock_speed_from_bytes([0x00, 0x01, 0x86, 0xA0]), 100_000);
    assert_eq!(clock_speed_from_bytes([0x00, 0x06, 0x1A, 0x80]), 400_000);
}

#[test]
fn timeout_in_ten_ms_units() {
    assert_eq!(timeout_ticks(0), 0);
    assert_eq!(timeout_ticks(1), 1);
    assert_eq!(timeout_ticks(9), 1);
    assert_eq!(timeout_ticks(10), 1);
    assert_eq!(timeout_ticks(25), 2);
}

#[test]
fn smbus_buffers() {
    assert_eq!(SmbusBuffer::new().data, [0u8; 34]);
    let b = SmbusBuffer::with_byte(0xAB);
    assert_eq!(b.byte(), 0xAB);
    let w = SmbusBuffer::with_word(0x1234);
    assert_eq!((w.data[0], w.data[1]), (0x34, 0x12));
    assert_eq!(w.word(), 0x1234);
    let block = SmbusBuffer::with_buffer(&[1, 2, 3]);
    assert_eq!(&block.data[0..5], &[3, 1, 2, 3, 0]);
    let long: Vec<u8> = (0..40).collect();
    let block = SmbusBuffer::with_buffer(&long);
    assert_eq!(block.data[0], 32);
    assert_eq!(block.data[32], 31);
    assert_eq!(block.data[33], 0);
}

#[test]
fn smbus_block_copy() {
    let mut buffer = SmbusBuffer::new();
    buffer.data[0] = 4;
    buffer.data[1..5].copy_from_slice(&[9, 8, 7, 6]);
    let mut small = [0u8; 2];
    assert_eq!(buffer.copy_block(&mut small), 4);
    assert_eq!(small, [9, 8]);
    let mut large = [0xEEu8; 6];
    assert_eq!(buffer.copy_block(&mut large), 4);
    assert_eq!(large, [9, 8, 7, 6, 0xEE, 0xEE]);
    buffer.data[0] = 200;
    assert_eq!(buffer.block_len(), 32);
}

#[test]
fn request_encoding() {
    assert_eq!(i2c_block_request_len(10), 10);
    assert_eq!(i2c_block_request_len(100), 32);
    assert_eq!(write_segment_flags(false), 0);
    assert_eq!(write_segment_flags(true), 0x10);
    assert_eq!(read_segment_flags(false), 0x01);
    assert_eq!(read_segment_flags(true), 0x11);
    assert!(!write_read_needed(0, 4));
    assert!(write_read_needed(1, 4));
    assert_eq!(quick_command_direction(true), SmbusReadWrite::Read);
    assert_eq!(SmbusReadWrite::Write.code(), 0);
    assert_eq!(SmbusSize::I2cBlockData.code(), 8);
    assert_eq!(SmbusSize::ProcCall.code(), 4);
}
