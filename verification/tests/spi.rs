use rppal::spi::segment::Segment;
use rppal::spi::{
    bit_order_from, bits_with_mode, bits_with_polarity, mode_from_bits, polarity_from_bits,
    reverse_bits, BitOrder, Bus, Mode, Polarity, SlaveSelect,
};

#[test]
fn reverse_bits_reverses_each_byte() {
    let mut buffer = [0b0000_0001u8, 0b1100_1010, 0xFF, 0x00];
    reverse_bits(&mut buffer);
    assert_eq!(buffer, [0b1000_0000, 0b0101_0011, 0xFF, 0x00]);
    reverse_bits(&mut buffer);
    assert_eq!(buffer, [0b0000_0001, 0b1100_1010, 0xFF, 0x00]);
    for b in 0..=255u8 {
        let mut one = [b];
        reverse_bits(&mut one);
        assert_eq!(one[0], b.reverse_bits());
    }
}

#[test]
fn mode_bits() {
    assert_eq!(mode_from_bits(0x07), Mode::Mode3);
    assert_eq!(mode_from_bits(0x04), Mode::Mode0);
    assert_eq!(bits_with_mode(0x07, Mode::Mode1), 0x05);
    assert_eq!(mode_from_bits(bits_with_mode(0xF0, Mode::Mode2)), Mode::Mode2);
}

#[test]
fn polarity_bits() {
    assert_eq!(polarity_from_bits(0x04), Polarity::ActiveHigh);
    assert_eq!(polarity_from_bits(0x03), Polarity::ActiveLow);
    assert_eq!(bits_with_polarity(0x01, Polarity::ActiveHigh), 0x05);
    assert_eq!(bits_with_polarity(0x05, Polarity::ActiveLow), 0x01);
}

#[test]
fn numbering_and_bit_order() {
    assert_eq!(Bus::Spi6.number(), 6);
    assert_eq!(SlaveSelect::Ss15.number(), 15);
    assert_eq!(bit_order_from(0), BitOrder::MsbFirst);
    assert_eq!(bit_order_from(3), BitOrder::LsbFirst);
    assert_eq!(BitOrder::LsbFirst.code(), 1);
    assert_eq!(Mode::Mode3.code(), 3);
    assert_eq!(Bus::Spi2.as_str(), "Spi2");
    assert_eq!(Polarity::ActiveLow.as_str(), "ActiveLow");
}

#[test]
fn segment_length_is_shortest_buffer() {
    let mut read = [0u8; 8];
    let write = [1u8; 5];
    let segment = Segment::new(&mut read, &write);
    assert_eq!(segment.len(), 5);
    assert!(!segment.is_empty());
    let mut read = [0u8; 3];
    let segment = Segment::new(&mut read, &write);
    assert_eq!(segment.len(), 3);
    let mut read = [0u8; 4];
    assert_eq!(Segment::with_read(&mut read).len(), 4);
    assert_eq!(Segment::with_write(&write).len(), 5);
    let empty = Segment::with_settings(None, None, 1_000_000, 10, 8, true);
    assert!(empty.is_empty());
    assert_eq!(empty.clock_speed(), 1_000_000);
    assert_eq!(empty.delay(), 10);
    assert_eq!(empty.bits_per_word(), 8);
    assert!(empty.ss_change());
}

#[test]
fn segment_settings() {
    let write = [1u8, 2, 3];
    let mut segment = Segment::with_write(&write);
    assert_eq!(segment.clock_speed(), 0);
    segment.set_clock_speed(500_000);
    segment.set_delay(20);
    segment.set_bits_per_word(8);
    segment.set_ss_change(true);
    assert_eq!(segment.clock_speed(), 500_000);
    assert_eq!(segment.delay(), 20);
    assert_eq!(segment.bits_per_word(), 8);
    assert!(segment.ss_change());
    segment.set_ss_change(false);
    assert!(!segment.ss_change());
    assert_eq!(segment.write_buffer(), Some(&write[..]));
    assert!(segment.read_buffer().is_none());
}

#[test]
fn segment_read_buffer_is_writable() {
    let mut read = [0u8; 3];
    let write = [1u8, 2, 3];
    {
        let mut segment = Segment::new(&mut read, &write);
        if let Some(buffer) = segment.read_buffer_mut() {
            buffer.copy_from_slice(&[7, 8, 9]);
        }
        assert_eq!(segment.len(), 3);
        assert_eq!(segment.read_buffer(), Some(&[7u8, 8, 9][..]));
    }
    assert_eq!(read, [7, 8, 9]);
    let mut segment = Segment::with_write(&write);
    assert!(segment.read_buffer_mut().is_none());
}
