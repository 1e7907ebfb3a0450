//! SPI bus: bus and slave select numbering, mode register bits, transfer
//! segments and bit order reversal.
//!
//! The caller talks to the `spidev` device; the functions here decide which
//! bits are written and how what is read back is decoded.
use vstd::prelude::*;

pub mod segment;

verus! {

/// Errors that can occur when accessing the SPI peripheral.
#[derive(Debug)]
pub enum Error {
    /// I/O error.
    Io(std::io::Error),
    /// The number of bits per word isn't supported.
    BitsPerWordNotSupported(u8),
    /// The bit order isn't supported.
    BitOrderNotSupported(BitOrder),
    /// The clock frequency isn't supported.
    ClockSpeedNotSupported(u32),
    /// The mode isn't supported.
    ModeNotSupported(Mode),
    /// The Slave Select polarity isn't supported.
    PolarityNotSupported(Polarity),
}

/// SPI buses.
#[derive(Debug, Copy, Clone, PartialEq, Eq, Structural)]
pub enum Bus {
    Spi0,
    Spi1,
    Spi2,
    Spi3,
    Spi4,
    Spi5,
    Spi6,
}

/// Slave Select pins.
#[derive(Debug, Copy, Clone, PartialEq, Eq, Structural)]
pub enum SlaveSelect {
    Ss0,
    Ss1,
    Ss2,
    Ss3,
    Ss4,
    Ss5,
    Ss6,
    Ss7,
    Ss8,
    Ss9,
    Ss10,
    Ss11,
    Ss12,
    Ss13,
    Ss14,
    Ss15,
}

/// Slave Select polarities.
#[derive(Debug, Copy, Clone, PartialEq, Eq, Structural)]
pub enum Polarity {
    ActiveLow,
    ActiveHigh,
}

/// SPI modes: clock polarity and phase.
#[derive(Debug, Copy, Clone, PartialEq, Eq, Structural)]
pub enum Mode {
    Mode0,
    Mode1,
    Mode2,
    Mode3,
}

/// Bit orders.
#[derive(Debug, Copy, Clone, PartialEq, Eq, Structural)]
pub enum BitOrder {
    MsbFirst,
    LsbFirst,
}

/// Mode bit: clock phase.
pub const MODE_CPHA: u8 = 0x01;
/// Mode bit: clock polarity.
pub const MODE_CPOL: u8 = 0x02;
/// Mode bit: Slave Select active high.
pub const MODE_CS_HIGH: u8 = 0x04;
/// Mode bit: least significant bit first.
pub const MODE_LSB_FIRST: u8 = 0x08;

/// The number of a bus, as used in the device name.
pub open spec fn bus_number(bus: Bus) -> u8 {
    match bus {
        Bus::Spi0 => 0,
        Bus::Spi1 => 1,
        Bus::Spi2 => 2,
        Bus::Spi3 => 3,
        Bus::Spi4 => 4,
        Bus::Spi5 => 5,
        Bus::Spi6 => 6,
    }
}

impl Bus {
    /// The bus number, as used in the device name `/dev/spidevB.S`.
    pub fn number(self) -> (r: u8)
        ensures
            r == bus_number(self),
    {
        match self {
            Bus::Spi0 => 0,
            Bus::Spi1 => 1,
            Bus::Spi2 => 2,
            Bus::Spi3 => 3,
            Bus::Spi4 => 4,
            Bus::Spi5 => 5,
            Bus::Spi6 => 6,
        }
    }
}

/// The number of a Slave Select pin, as used in the device name.
pub open spec fn slave_select_number(ss: SlaveSelect) -> u8 {
    match ss {
        SlaveSelect::Ss0 => 0,
        SlaveSelect::Ss1 => 1,
        SlaveSelect::Ss2 => 2,
        SlaveSelect::Ss3 => 3,
        SlaveSelect::Ss4 => 4,
        SlaveSelect::Ss5 => 5,
        SlaveSelect::Ss6 => 6,
        SlaveSelect::Ss7 => 7,
        SlaveSelect::Ss8 => 8,
        SlaveSelect::Ss9 => 9,
        SlaveSelect::Ss10 => 10,
        SlaveSelect::Ss11 => 11,
        SlaveSelect::Ss12 => 12,
        SlaveSelect::Ss13 => 13,
        SlaveSelect::Ss14 => 14,
        SlaveSelect::Ss15 => 15,
    }
}

impl SlaveSelect {
    /// The Slave Select number, as used in the device name `/dev/spidevB.S`.
    pub fn number(self) -> (r: u8)
        ensures
            r == slave_select_number(self),
    {
        match self {
            SlaveSelect::Ss0 => 0,
            SlaveSelect::Ss1 => 1,
            SlaveSelect::Ss2 => 2,
            SlaveSelect::Ss3 => 3,
            SlaveSelect::Ss4 => 4,
            SlaveSelect::Ss5 => 5,
            SlaveSelect::Ss6 => 6,
            SlaveSelect::Ss7 => 7,
            SlaveSelect::Ss8 => 8,
            SlaveSelect::Ss9 => 9,
            SlaveSelect::Ss10 => 10,
            SlaveSelect::Ss11 => 11,
            SlaveSelect::Ss12 => 12,
            SlaveSelect::Ss13 => 13,
            SlaveSelect::Ss14 => 14,
            SlaveSelect::Ss15 => 15,
        }
    }
}

/// The clock polarity and phase bits of a mode.
pub open spec fn mode_code(mode: Mode) -> u8 {
    match mode {
        Mode::Mode0 => 0,
        Mode::Mode1 => 1,
        Mode::Mode2 => 2,
        Mode::Mode3 => 3,
    }
}

/// The mode the clock polarity and phase bits of a mode register value stand for.
pub open spec fn mode_of_bits(bits: u8) -> Mode {
    let code = bits & 0x03;
    if code == 1 {
        Mode::Mode1
    } else if code == 2 {
        Mode::Mode2
    } else if code == 3 {
        Mode::Mode3
    } else {
        Mode::Mode0
    }
}

impl Mode {
    /// The clock polarity and phase bits of the mode.
    pub fn code(self) -> (r: u8)
        ensures
            r == mode_code(self),
    {
        match self {
            Mode::Mode0 => 0,
            Mode::Mode1 => 1,
            Mode::Mode2 => 2,
            Mode::Mode3 => 3,
        }
    }
}

/// The mode a mode register value selects.
pub fn mode_from_bits(bits: u8) -> (r: Mode)
    ensures
        r == mode_of_bits(bits),
{
    match bits & 0x03 {
        0x01 => Mode::Mode1,
        0x02 => Mode::Mode2,
        0x03 => Mode::Mode3,
        _ => Mode::Mode0,
    }
}

/// A mode register value with only the clock polarity and phase bits replaced.
pub fn bits_with_mode(bits: u8, mode: Mode) -> (r: u8)
    ensures
        r == (bits & !0x03u8) | mode_code(mode),
{
    (bits & !0x03u8) | mode.code()
}

/// Reading the mode back after writing it gives the mode, and the register's
/// other bits are kept.
pub proof fn lemma_mode_roundtrip(bits: u8, mode: Mode)
    ensures
        mode_of_bits((bits & !0x03u8) | mode_code(mode)) == mode,
        ((bits & !0x03u8) | mode_code(mode)) & !0x03u8 == bits & !0x03u8,
{
    let c = mode_code(mode);
    assert(((bits & !0x03u8) | c) & 0x03 == c && ((bits & !0x03u8) | c) & !0x03u8 == bits
        & !0x03u8) by (bit_vector)
        requires
            c < 4,
    ;
}

/// The SPI modes are the Linux `spidev` ones: mode 0 sets neither clock bit,
/// mode 1 sets CPHA (0x01), mode 2 sets CPOL (0x02) and mode 3 sets both;
/// the two low bits of a mode register value read back the same way.
pub proof fn lemma_spi_mode_bits(bits: u8)
    ensures
        mode_code(Mode::Mode0) == 0,
        mode_code(Mode::Mode1) == MODE_CPHA && MODE_CPHA == 0x01,
        mode_code(Mode::Mode2) == MODE_CPOL && MODE_CPOL == 0x02,
        mode_code(Mode::Mode3) == MODE_CPOL | MODE_CPHA,
        bits & 0x03 == 0x00 ==> mode_of_bits(bits) == Mode::Mode0,
        bits & 0x03 == 0x01 ==> mode_of_bits(bits) == Mode::Mode1,
        bits & 0x03 == 0x02 ==> mode_of_bits(bits) == Mode::Mode2,
        bits & 0x03 == 0x03 ==> mode_of_bits(bits) == Mode::Mode3,
        MODE_CS_HIGH == 0x04,
{
    assert(0x02u8 | 0x01u8 == 3) by (bit_vector);
}

/// Bus SPIn has number n and Slave Select SSn has number n, as in the device
/// name `/dev/spidevB.S`.
pub proof fn lemma_device_numbers()
    ensures
        bus_number(Bus::Spi0) == 0,
        bus_number(Bus::Spi1) == 1,
        bus_number(Bus::Spi2) == 2,
        bus_number(Bus::Spi3) == 3,
        bus_number(Bus::Spi4) == 4,
        bus_number(Bus::Spi5) == 5,
        bus_number(Bus::Spi6) == 6,
        slave_select_number(SlaveSelect::Ss0) == 0,
        slave_select_number(SlaveSelect::Ss1) == 1,
        slave_select_number(SlaveSelect::Ss2) == 2,
        slave_select_number(SlaveSelect::Ss3) == 3,
        slave_select_number(SlaveSelect::Ss4) == 4,
        slave_select_number(SlaveSelect::Ss5) == 5,
        slave_select_number(SlaveSelect::Ss6) == 6,
        slave_select_number(SlaveSelect::Ss7) == 7,
        slave_select_number(SlaveSelect::Ss8) == 8,
        slave_select_number(SlaveSelect::Ss9) == 9,
        slave_select_number(SlaveSelect::Ss10) == 10,
        slave_select_number(SlaveSelect::Ss11) == 11,
        slave_select_number(SlaveSelect::Ss12) == 12,
        slave_select_number(SlaveSelect::Ss13) == 13,
        slave_select_number(SlaveSelect::Ss14) == 14,
        slave_select_number(SlaveSelect::Ss15) == 15,
{
}

/// The Slave Select polarity a mode register value selects.
pub open spec fn polarity_of_bits(bits: u8) -> Polarity {
    if bits & MODE_CS_HIGH == 0 {
        Polarity::ActiveLow
    } else {
        Polarity::ActiveHigh
    }
}

/// The Slave Select polarity a mode register value selects.
pub fn polarity_from_bits(bits: u8) -> (r: Polarity)
    ensures
        r == polarity_of_bits(bits),
{
    if (bits & MODE_CS_HIGH) == 0 {
        Polarity::ActiveLow
    } else {
        Polarity::ActiveHigh
    }
}

/// A mode register value with only the Slave Select polarity bit replaced.
pub fn bits_with_polarity(bits: u8, polarity: Polarity) -> (r: u8)
    ensures
        polarity is ActiveHigh ==> r == bits | MODE_CS_HIGH,
        polarity is ActiveLow ==> r == bits & !MODE_CS_HIGH,
{
    if polarity == Polarity::ActiveHigh {
        bits | MODE_CS_HIGH
    } else {
        bits & !MODE_CS_HIGH
    }
}

/// Reading the polarity back after writing it gives the polarity, and the
/// register's other bits are kept.
pub proof fn lemma_polarity_roundtrip(bits: u8)
    ensures
        polarity_of_bits(bits | MODE_CS_HIGH) is ActiveHigh,
        polarity_of_bits(bits & !MODE_CS_HIGH) is ActiveLow,
        (bits | MODE_CS_HIGH) & !MODE_CS_HIGH == bits & !MODE_CS_HIGH,
{
    assert((bits | 0x04u8) & 0x04u8 != 0 && (bits & !0x04u8) & 0x04u8 == 0 && (bits | 0x04u8)
        & !0x04u8 == bits & !0x04u8) by (bit_vector);
}

/// The bit order the driver reports: zero is most significant bit first.
pub fn bit_order_from(value: u8) -> (r: BitOrder)
    ensures
        r == (if value == 0 {
            BitOrder::MsbFirst
        } else {
            BitOrder::LsbFirst
        }),
{
    if value == 0 {
        BitOrder::MsbFirst
    } else {
        BitOrder::LsbFirst
    }
}

impl BitOrder {
    /// The value the driver expects.
    pub fn code(self) -> (r: u8)
        ensures
            r == (if self is MsbFirst {
                0u8
            } else {
                1u8
            }),
    {
        match self {
            BitOrder::MsbFirst => 0,
            BitOrder::LsbFirst => 1,
        }
    }
}

/// A byte with its bit order reversed.
pub open spec fn reversed_byte(b: u8) -> u8 {
    ((b & 0x01) << 7u8) | ((b & 0x02) << 5u8) | ((b & 0x04) << 3u8) | ((b & 0x08) << 1u8) | ((b
        & 0x10) >> 1u8) | ((b & 0x20) >> 3u8) | ((b & 0x40) >> 5u8) | ((b & 0x80) >> 7u8)
}

/// Bit `i` of the reversed byte is bit `7 - i` of the byte.
pub proof fn lemma_reversed_bits(b: u8, i: u8)
    requires
        i < 8,
    ensures
        (reversed_byte(b) >> i) & 1 == (b >> (7 - i) as u8) & 1,
{
    assert((((b & 0x01) << 7u8) | ((b & 0x02) << 5u8) | ((b & 0x04) << 3u8) | ((b & 0x08) << 1u8)
        | ((b & 0x10) >> 1u8) | ((b & 0x20) >> 3u8) | ((b & 0x40) >> 5u8) | ((b & 0x80) >> 7u8))
        >> i & 1 == (b >> (7 - i) as u8) & 1) by (bit_vector)
        requires
            i < 8,
    ;
}

/// Reversing the bit order twice gives the byte back.
pub proof fn lemma_reverse_involutive(b: u8)
    ensures
        reversed_byte(reversed_byte(b)) == b,
{
    let r = reversed_byte(b);
    assert(r == ((b & 0x01) << 7u8) | ((b & 0x02) << 5u8) | ((b & 0x04) << 3u8) | ((b & 0x08)
        << 1u8) | ((b & 0x10) >> 1u8) | ((b & 0x20) >> 3u8) | ((b & 0x40) >> 5u8) | ((b & 0x80)
        >> 7u8));
    assert(((r & 0x01) << 7u8) | ((r & 0x02) << 5u8) | ((r & 0x04) << 3u8) | ((r & 0x08) << 1u8)
        | ((r & 0x10) >> 1u8) | ((r & 0x20) >> 3u8) | ((r & 0x40) >> 5u8) | ((r & 0x80) >> 7u8)
        == b) by (bit_vector)
        requires
            r == ((b & 0x01) << 7u8) | ((b & 0x02) << 5u8) | ((b & 0x04) << 3u8) | ((b & 0x08)
                << 1u8) | ((b & 0x10) >> 1u8) | ((b & 0x20) >> 3u8) | ((b & 0x40) >> 5u8) | ((b
                & 0x80) >> 7u8),
    ;
}

/// Reverses the bit order of every byte in the buffer, for devices that send
/// or expect the least significant bit first.
pub fn reverse_bits(buffer: &mut [u8])
    ensures
        final(buffer)@.len() == old(buffer)@.len(),
        forall|k: int| 0 <= k < old(buffer)@.len() ==> final(buffer)@[k] == reversed_byte(old(buffer)@[k]),
{
    let mut i: usize = 0;
    while i < buffer.len()
        invariant
            i <= buffer.len(),
            buffer@.len() == old(buffer)@.len(),
            forall|k: int| 0 <= k < i ==> buffer@[k] == reversed_byte(old(buffer)@[k]),
            forall|k: int| i <= k < buffer@.len() ==> buffer@[k] == old(buffer)@[k],
        decreases buffer.len() - i,
    {
        let b = buffer[i];
        buffer[i] = ((b & 0x01) << 7u8) | ((b & 0x02) << 5u8) | ((b & 0x04) << 3u8) | ((b & 0x08)
            << 1u8) | ((b & 0x10) >> 1u8) | ((b & 0x20) >> 3u8) | ((b & 0x40) >> 5u8) | ((b & 0x80)
            >> 7u8);
        i += 1;
    }
}

/// The text `Bus` is shown as.
pub open spec fn bus_text(v: Bus) -> &'static str {
    match v {
        Bus::Spi0 => "Spi0",
        Bus::Spi1 => "Spi1",
        Bus::Spi2 => "Spi2",
        Bus::Spi3 => "Spi3",
        Bus::Spi4 => "Spi4",
        Bus::Spi5 => "Spi5",
        Bus::Spi6 => "Spi6",
    }
}

impl Bus {
    /// The text the value is shown as.
    pub fn as_str(&self) -> (r: &'static str)
        ensures
            r == bus_text(*self),
    {
        match self {
            Bus::Spi0 => "Spi0",
            Bus::Spi1 => "Spi1",
            Bus::Spi2 => "Spi2",
            Bus::Spi3 => "Spi3",
            Bus::Spi4 => "Spi4",
            Bus::Spi5 => "Spi5",
            Bus::Spi6 => "Spi6",
        }
    }
}

/// The text `SlaveSelect` is shown as.
pub open spec fn slave_select_text(v: SlaveSelect) -> &'static str {
    match v {
        SlaveSelect::Ss0 => "Ss0",
        SlaveSelect::Ss1 => "Ss1",
        SlaveSelect::Ss2 => "Ss2",
        SlaveSelect::Ss3 => "Ss3",
        SlaveSelect::Ss4 => "Ss4",
        SlaveSelect::Ss5 => "Ss5",
        SlaveSelect::Ss6 => "Ss6",
        SlaveSelect::Ss7 => "Ss7",
        SlaveSelect::Ss8 => "Ss8",
        SlaveSelect::Ss9 => "Ss9",
        SlaveSelect::Ss10 => "Ss10",
        SlaveSelect::Ss11 => "Ss11",
        SlaveSelect::Ss12 => "Ss12",
        SlaveSelect::Ss13 => "Ss13",
        SlaveSelect::Ss14 => "Ss14",
        SlaveSelect::Ss15 => "Ss15",
    }
}

impl SlaveSelect {
    /// The text the value is shown as.
    pub fn as_str(&self) -> (r: &'static str)
        ensures
            r == slave_select_text(*self),
    {
        match self {
            SlaveSelect::Ss0 => "Ss0",
            SlaveSelect::Ss1 => "Ss1",
            SlaveSelect::Ss2 => "Ss2",
            SlaveSelect::Ss3 => "Ss3",
            SlaveSelect::Ss4 => "Ss4",
            SlaveSelect::Ss5 => "Ss5",
            SlaveSelect::Ss6 => "Ss6",
            SlaveSelect::Ss7 => "Ss7",
            SlaveSelect::Ss8 => "Ss8",
            SlaveSelect::Ss9 => "Ss9",
            SlaveSelect::Ss10 => "Ss10",
            SlaveSelect::Ss11 => "Ss11",
            SlaveSelect::Ss12 => "Ss12",
            SlaveSelect::Ss13 => "Ss13",
            SlaveSelect::Ss14 => "Ss14",
            SlaveSelect::Ss15 => "Ss15",
        }
    }
}

/// The text `Polarity` is shown as.
pub open spec fn polarity_text(v: Polarity) -> &'static str {
    match v {
        Polarity::ActiveLow => "ActiveLow",
        Polarity::ActiveHigh => "ActiveHigh",
    }
}

impl Polarity {
    /// The text the value is shown as.
    pub fn as_str(&self) -> (r: &'static str)
        ensures
            r == polarity_text(*self),
    {
        match self {
            Polarity::ActiveLow => "ActiveLow",
            Polarity::ActiveHigh => "ActiveHigh",
        }
    }
}

/// The text `Mode` is shown as.
pub open spec fn mode_text(v: Mode) -> &'static str {
    match v {
        Mode::Mode0 => "Mode0",
        Mode::Mode1 => "Mode1",
        Mode::Mode2 => "Mode2",
        Mode::Mode3 => "Mode3",
    }
}

impl Mode {
    /// The text the value is shown as.
    pub fn as_str(&self) -> (r: &'static str)
        ensures
            r == mode_text(*self),
    {
        match self {
            Mode::Mode0 => "Mode0",
            Mode::Mode1 => "Mode1",
            Mode::Mode2 => "Mode2",
            Mode::Mode3 => "Mode3",
        }
    }
}

/// The text `BitOrder` is shown as.
pub open spec fn bit_order_text(v: BitOrder) -> &'static str {
    match v {
        BitOrder::MsbFirst => "MsbFirst",
        BitOrder::LsbFirst => "LsbFirst",
    }
}

impl BitOrder {
    /// The text the value is shown as.
    pub fn as_str(&self) -> (r: &'static str)
        ensures
            r == bit_order_text(*self),
    {
        match self {
            BitOrder::MsbFirst => "MsbFirst",
            BitOrder::LsbFirst => "LsbFirst",
        }
    }
}

} // verus!
