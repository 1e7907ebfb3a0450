//! UART: terminal attribute bits, line speeds, modem status and the decisions
//! about blocking and flow control.
//!
//! The caller holds the serial device and performs the `termios`, `ioctl` and
//! `fcntl` calls; the functions here compute the values involved.
use vstd::prelude::*;
use crate::bytes::bytes_eq;
use crate::gpio::Mode;
use crate::system::Model;

verus! {

/// Errors that can occur when accessing the UART peripheral.
#[derive(Debug)]
pub enum Error {
    /// I/O error.
    Io(std::io::Error),
    /// GPIO error, from configuring the RTS/CTS pins.
    Gpio(crate::gpio::Error),
    /// Invalid or unsupported value.
    InvalidValue,
}

/// Parities.
#[derive(Debug, Copy, Clone, PartialEq, Eq, Structural)]
pub enum Parity {
    /// No parity bit.
    NoParity,
    Even,
    Odd,
    Mark,
    Space,
}

/// Parity check modes.
#[derive(Debug, Copy, Clone, PartialEq, Eq, Structural)]
pub enum ParityCheck {
    /// Parity errors are passed through unchecked.
    NoCheck,
    Strip,
    Replace,
    Mark,
}

/// Queues of the serial device.
#[derive(Debug, Copy, Clone, PartialEq, Eq, Structural)]
pub enum Queue {
    Input,
    Output,
    Both,
}

/// Control flag: parity enabled (Linux `PARENB`).
pub const PARENB: u32 = 0o400;
/// Control flag: odd parity (Linux `PARODD`).
pub const PARODD: u32 = 0o1000;
/// Control flag: mark or space parity (Linux `CMSPAR`).
pub const CMSPAR: u32 = 0o10000000000;

/// Modem line: data terminal ready (Linux `TIOCM_DTR`).
pub const TIOCM_DTR: i32 = 0x002;
/// Modem line: request to send (Linux `TIOCM_RTS`).
pub const TIOCM_RTS: i32 = 0x004;
/// Modem line: clear to send (Linux `TIOCM_CTS`).
pub const TIOCM_CTS: i32 = 0x020;
/// Modem line: data carrier detect (Linux `TIOCM_CAR`).
pub const TIOCM_CAR: i32 = 0x040;
/// Modem line: ring indicator (Linux `TIOCM_RNG`).
pub const TIOCM_RNG: i32 = 0x080;
/// Modem line: data set ready (Linux `TIOCM_DSR`).
pub const TIOCM_DSR: i32 = 0x100;

/// The parity a control flag value selects. Mark and space parity also set
/// the odd-parity and parity-enable bits, so they read back as odd and even.
pub open spec fn parity_of_cflag(cflag: u32) -> Parity {
    if cflag & PARENB == 0 {
        Parity::NoParity
    } else if cflag & PARODD == 0 {
        Parity::Even
    } else {
        Parity::Odd
    }
}

/// The parity a control flag value selects.
pub fn parity_from_cflag(cflag: u32) -> (r: Parity)
    ensures
        r == parity_of_cflag(cflag),
{
    if (cflag & PARENB) == 0 {
        Parity::NoParity
    } else if (cflag & PARENB) > 0 && (cflag & PARODD) == 0 {
        Parity::Even
    } else if (cflag & PARENB) > 0 && (cflag & PARODD) > 0 {
        Parity::Odd
    } else if (cflag & PARENB) > 0 && (cflag & CMSPAR) > 0 && (cflag & PARODD) > 0 {
        Parity::Mark
    } else {
        Parity::Space
    }
}

/// The control flag value that selects a parity, other bits kept.
pub open spec fn cflag_with_parity_spec(cflag: u32, parity: Parity) -> u32 {
    match parity {
        Parity::NoParity => cflag & !PARENB,
        Parity::Even => (cflag | PARENB) & !PARODD,
        Parity::Odd => cflag | PARENB | PARODD,
        Parity::Mark => cflag | PARENB | PARODD | CMSPAR,
        Parity::Space => (cflag | PARENB | CMSPAR) & !PARODD,
    }
}

/// The control flag value that selects a parity, other bits kept.
pub fn cflag_with_parity(cflag: u32, parity: Parity) -> (r: u32)
    ensures
        r == cflag_with_parity_spec(cflag, parity),
{
    match parity {
        Parity::NoParity => cflag & !PARENB,
        Parity::Even => (cflag | PARENB) & !PARODD,
        Parity::Odd => cflag | PARENB | PARODD,
        Parity::Mark => cflag | PARENB | PARODD | CMSPAR,
        Parity::Space => (cflag | PARENB | CMSPAR) & !PARODD,
    }
}

/// Reading the parity back after setting it gives it back for no, even and
/// odd parity; mark parity reads back as odd and space parity as even.
pub proof fn lemma_parity_roundtrip(cflag: u32, parity: Parity)
    ensures
        parity_of_cflag(cflag_with_parity_spec(cflag, parity)) == (match parity {
            Parity::Mark => Parity::Odd,
            Parity::Space => Parity::Even,
            p => p,
        }),
{
    assert((cflag & !0o400u32) & 0o400u32 == 0) by (bit_vector);
    assert(((cflag | 0o400u32) & !0o1000u32) & 0o400u32 != 0 && ((cflag | 0o400u32) & !0o1000u32)
        & 0o1000u32 == 0) by (bit_vector);
    assert((cflag | 0o400u32 | 0o1000u32) & 0o400u32 != 0 && (cflag | 0o400u32 | 0o1000u32)
        & 0o1000u32 != 0) by (bit_vector);
    assert((cflag | 0o400u32 | 0o1000u32 | 0o10000000000u32) & 0o400u32 != 0 && (cflag | 0o400u32
        | 0o1000u32 | 0o10000000000u32) & 0o1000u32 != 0) by (bit_vector);
    assert(((cflag | 0o400u32 | 0o10000000000u32) & !0o1000u32) & 0o400u32 != 0 && ((cflag
        | 0o400u32 | 0o10000000000u32) & !0o1000u32) & 0o1000u32 == 0) by (bit_vector);
}

/// Setting a parity sets the Linux termios bits for it: no parity clears
/// PARENB (0o400); even parity sets PARENB and clears PARODD (0o1000); odd
/// parity sets both; mark parity sets both and CMSPAR (0o10000000000); space
/// parity sets PARENB and CMSPAR and clears PARODD. Every other bit is kept.
pub proof fn lemma_parity_bits(cflag: u32)
    ensures
        cflag_with_parity_spec(cflag, Parity::NoParity) & 0o400 == 0,
        cflag_with_parity_spec(cflag, Parity::Even) & 0o1400 == 0o400,
        cflag_with_parity_spec(cflag, Parity::Odd) & 0o1400 == 0o1400,
        cflag_with_parity_spec(cflag, Parity::Mark) & 0o10000001400 == 0o10000001400,
        cflag_with_parity_spec(cflag, Parity::Space) & 0o10000001400 == 0o10000000400,
        cflag_with_parity_spec(cflag, Parity::NoParity) & !0o400u32 == cflag & !0o400u32,
        cflag_with_parity_spec(cflag, Parity::Even) & !0o1400u32 == cflag & !0o1400u32,
        cflag_with_parity_spec(cflag, Parity::Odd) & !0o1400u32 == cflag & !0o1400u32,
        cflag_with_parity_spec(cflag, Parity::Mark) & !0o10000001400u32 == cflag
            & !0o10000001400u32,
        cflag_with_parity_spec(cflag, Parity::Space) & !0o10000001400u32 == cflag
            & !0o10000001400u32,
{
    assert((cflag & !0o400u32) & 0o400 == 0 && (cflag & !0o400u32) & !0o400u32 == cflag
        & !0o400u32) by (bit_vector);
    assert(((cflag | 0o400u32) & !0o1000u32) & 0o1400 == 0o400 && ((cflag | 0o400u32)
        & !0o1000u32) & !0o1400u32 == cflag & !0o1400u32) by (bit_vector);
    assert((cflag | 0o400u32 | 0o1000u32) & 0o1400 == 0o1400 && (cflag | 0o400u32 | 0o1000u32)
        & !0o1400u32 == cflag & !0o1400u32) by (bit_vector);
    assert((cflag | 0o400u32 | 0o1000u32 | 0o10000000000u32) & 0o10000001400 == 0o10000001400
        && (cflag | 0o400u32 | 0o1000u32 | 0o10000000000u32) & !0o10000001400u32 == cflag
        & !0o10000001400u32) by (bit_vector);
    assert(((cflag | 0o400u32 | 0o10000000000u32) & !0o1000u32) & 0o10000001400 == 0o10000000400
        && ((cflag | 0o400u32 | 0o10000000000u32) & !0o1000u32) & !0o10000001400u32 == cflag
        & !0o10000001400u32) by (bit_vector);
}

/// Control flags: character size mask (Linux `CSIZE`).
pub const CSIZE: u32 = 0o60;
/// Control flags: five data bits (Linux `CS5`).
pub const CS5: u32 = 0o0;
/// Control flags: six data bits (Linux `CS6`).
pub const CS6: u32 = 0o20;
/// Control flags: seven data bits (Linux `CS7`).
pub const CS7: u32 = 0o40;
/// Control flags: eight data bits (Linux `CS8`).
pub const CS8: u32 = 0o60;
/// Control flag: two stop bits (Linux `CSTOPB`).
pub const CSTOPB: u32 = 0o100;
/// Control flag: enable the receiver (Linux `CREAD`).
pub const CREAD: u32 = 0o200;
/// Control flag: ignore modem control lines (Linux `CLOCAL`).
pub const CLOCAL: u32 = 0o4000;
/// Control flag: RTS/CTS flow control (Linux `CRTSCTS`).
pub const CRTSCTS: u32 = 0o20000000000;
/// Input flag: ignore bytes with parity errors (Linux `IGNPAR`).
pub const IGNPAR: u32 = 0o4;
/// Input flag: mark bytes with parity errors (Linux `PARMRK`).
pub const PARMRK: u32 = 0o10;
/// Input flag: check parity (Linux `INPCK`).
pub const INPCK: u32 = 0o20;
/// Input flag: XON/XOFF flow control of output (Linux `IXON`).
pub const IXON: u32 = 0o2000;
/// Input flag: XON/XOFF flow control of input (Linux `IXOFF`).
pub const IXOFF: u32 = 0o10000;

/// The character size bits for a number of data bits, if it is supported.
pub open spec fn data_bits_flag(data_bits: u8) -> Option<u32> {
    if data_bits == 5 {
        Some(CS5)
    } else if data_bits == 6 {
        Some(CS6)
    } else if data_bits == 7 {
        Some(CS7)
    } else if data_bits == 8 {
        Some(CS8)
    } else {
        None
    }
}

/// The character size bits are Linux's: CS5 = 0o0, CS6 = 0o20, CS7 = 0o40
/// and CS8 = 0o60 within the CSIZE mask 0o60; other numbers of data bits
/// have none.
pub proof fn lemma_data_bits_flags(data_bits: u8)
    ensures
        CSIZE == 0o60,
        data_bits == 5 ==> data_bits_flag(data_bits) == Some(0o0u32),
        data_bits == 6 ==> data_bits_flag(data_bits) == Some(0o20u32),
        data_bits == 7 ==> data_bits_flag(data_bits) == Some(0o40u32),
        data_bits == 8 ==> data_bits_flag(data_bits) == Some(0o60u32),
        (data_bits < 5 || data_bits > 8) ==> data_bits_flag(data_bits) is None,
{
}

/// The control flags with the character size set for `data_bits` data bits,
/// other bits kept; `None` for a number other than 5 to 8.
pub fn cflag_with_data_bits(cflag: u32, data_bits: u8) -> (r: Option<u32>)
    ensures
        r == (match data_bits_flag(data_bits) {
            Some(size) => Some((cflag & !CSIZE) | size),
            None => None,
        }),
{
    let size = match data_bits {
        5 => CS5,
        6 => CS6,
        7 => CS7,
        8 => CS8,
        _ => return None,
    };
    Some((cflag & !CSIZE) | size)
}

/// The control flags with one or two stop bits, other bits kept; `None` for
/// any other number.
pub fn cflag_with_stop_bits(cflag: u32, stop_bits: u8) -> (r: Option<u32>)
    ensures
        r == (if stop_bits == 1 {
            Some(cflag & !CSTOPB)
        } else if stop_bits == 2 {
            Some(cflag | CSTOPB)
        } else {
            None
        }),
{
    if stop_bits == 1 {
        Some(cflag & !CSTOPB)
    } else if stop_bits == 2 {
        Some(cflag | CSTOPB)
    } else {
        None
    }
}

/// The input flags for a parity check mode, other bits kept: no checking;
/// checking with bytes in error dropped; checking with bytes in error read
/// as 0; or checking with bytes in error marked by a preceding 255, 0.
pub fn iflag_with_parity_check(iflag: u32, parity_check: ParityCheck) -> (r: u32)
    ensures
        r == (match parity_check {
            ParityCheck::NoCheck => iflag & !(INPCK | IGNPAR | PARMRK),
            ParityCheck::Strip => (iflag & !PARMRK) | INPCK | IGNPAR,
            ParityCheck::Replace => (iflag & !(IGNPAR | PARMRK)) | INPCK,
            ParityCheck::Mark => (iflag & !IGNPAR) | INPCK | PARMRK,
        }),
{
    match parity_check {
        ParityCheck::NoCheck => iflag & !(INPCK | IGNPAR | PARMRK),
        ParityCheck::Strip => (iflag & !PARMRK) | INPCK | IGNPAR,
        ParityCheck::Replace => (iflag & !(IGNPAR | PARMRK)) | INPCK,
        ParityCheck::Mark => (iflag & !IGNPAR) | INPCK | PARMRK,
    }
}

/// The input flags with XON/XOFF flow control of incoming and of outgoing
/// data switched on or off, other bits kept.
pub fn iflag_with_software_flow_control(iflag: u32, incoming: bool, outgoing: bool) -> (r: u32)
    ensures
        r == ({
            let with_in = if incoming {
                iflag | IXOFF
            } else {
                iflag & !IXOFF
            };
            if outgoing {
                with_in | IXON
            } else {
                with_in & !IXON
            }
        }),
{
    let with_in = if incoming {
        iflag | IXOFF
    } else {
        iflag & !IXOFF
    };
    if outgoing {
        with_in | IXON
    } else {
        with_in & !IXON
    }
}

/// The control flags with RTS/CTS flow control switched on or off, other
/// bits kept.
pub fn cflag_with_hardware_flow_control(cflag: u32, enabled: bool) -> (r: u32)
    ensures
        r == (if enabled {
            cflag | CRTSCTS
        } else {
            cflag & !CRTSCTS
        }),
{
    if enabled {
        cflag | CRTSCTS
    } else {
        cflag & !CRTSCTS
    }
}

/// The control flags with the receiver enabled and the modem control lines,
/// carrier detect among them, ignored.
pub fn cflag_local_reader(cflag: u32) -> (r: u32)
    ensures
        r == cflag | CLOCAL | CREAD,
{
    cflag | CLOCAL | CREAD
}

/// The read timeout in the terminal's units of 0.1 s for a timeout in
/// milliseconds: rounded down, and at most 255 units (25.5 s).
pub fn read_timeout_units(timeout_millis: u128) -> (r: u8)
    ensures
        r as int == (if timeout_millis / 100 > 255 {
            255
        } else {
            timeout_millis / 100
        }),
{
    let units = timeout_millis / 100;
    if units > 255 {
        255
    } else {
        units as u8
    }
}

/// The line speeds the terminal interface supports, with their Linux codes.
pub open spec fn speed_table() -> Seq<(u32, u32)> {
    seq![
        (0u32, 0u32),
        (50, 1),
        (75, 2),
        (110, 3),
        (134, 4),
        (150, 5),
        (200, 6),
        (300, 7),
        (600, 8),
        (1_200, 9),
        (1_800, 10),
        (2_400, 11),
        (4_800, 12),
        (9_600, 13),
        (19_200, 14),
        (38_400, 15),
        (57_600, 0o10001),
        (115_200, 0o10002),
        (230_400, 0o10003),
        (460_800, 0o10004),
        (500_000, 0o10005),
        (576_000, 0o10006),
        (921_600, 0o10007),
        (1_000_000, 0o10010),
        (1_152_000, 0o10011),
        (1_500_000, 0o10012),
        (2_000_000, 0o10013),
        (2_500_000, 0o10014),
        (3_000_000, 0o10015),
        (3_500_000, 0o10016),
        (4_000_000, 0o10017),
    ]
}

/// The speed code of a line speed in bits per second, if the speed is supported.
pub fn speed_code(speed: u32) -> (r: Option<u32>)
    ensures
        r is Some <==> exists|k: int| 0 <= k < speed_table().len() && speed_table()[k].0 == speed,
        forall|k: int|
            0 <= k < speed_table().len() && speed_table()[k].0 == speed ==> r == Some(
                speed_table()[k].1,
            ),
{
    let table: [(u32, u32); 31] = [
        (0u32, 0u32),
        (50, 1),
        (75, 2),
        (110, 3),
        (134, 4),
        (150, 5),
        (200, 6),
        (300, 7),
        (600, 8),
        (1_200, 9),
        (1_800, 10),
        (2_400, 11),
        (4_800, 12),
        (9_600, 13),
        (19_200, 14),
        (38_400, 15),
        (57_600, 0o10001),
        (115_200, 0o10002),
        (230_400, 0o10003),
        (460_800, 0o10004),
        (500_000, 0o10005),
        (576_000, 0o10006),
        (921_600, 0o10007),
        (1_000_000, 0o10010),
        (1_152_000, 0o10011),
        (1_500_000, 0o10012),
        (2_000_000, 0o10013),
        (2_500_000, 0o10014),
        (3_000_000, 0o10015),
        (3_500_000, 0o10016),
        (4_000_000, 0o10017),
    ];
    assert(table@ == speed_table());
    let mut i: usize = 0;
    while i < 31
        invariant
            i <= 31,
            table@ == speed_table(),
            forall|k: int| 0 <= k < i ==> speed_table()[k].0 != speed,
        decreases 31 - i,
    {
        if table[i].0 == speed {
            proof {
                assert forall|k: int|
                    0 <= k < speed_table().len() && speed_table()[k].0 == speed implies speed_table()[k].1
                    == speed_table()[i as int].1 by {
                    assert(k == i as int);
                }
            }
            return Some(table[i].1);
        }
        i += 1;
    }
    None
}

/// The line speed in bits per second that a speed code stands for, if any.
pub fn speed_from_code(code: u32) -> (r: Option<u32>)
    ensures
        r is Some <==> exists|k: int| 0 <= k < speed_table().len() && speed_table()[k].1 == code,
        forall|k: int|
            0 <= k < speed_table().len() && speed_table()[k].1 == code ==> r == Some(
                speed_table()[k].0,
            ),
{
    let table: [(u32, u32); 31] = [
        (0u32, 0u32),
        (50, 1),
        (75, 2),
        (110, 3),
        (134, 4),
        (150, 5),
        (200, 6),
        (300, 7),
        (600, 8),
        (1_200, 9),
        (1_800, 10),
        (2_400, 11),
        (4_800, 12),
        (9_600, 13),
        (19_200, 14),
        (38_400, 15),
        (57_600, 0o10001),
        (115_200, 0o10002),
        (230_400, 0o10003),
        (460_800, 0o10004),
        (500_000, 0o10005),
        (576_000, 0o10006),
        (921_600, 0o10007),
        (1_000_000, 0o10010),
        (1_152_000, 0o10011),
        (1_500_000, 0o10012),
        (2_000_000, 0o10013),
        (2_500_000, 0o10014),
        (3_000_000, 0o10015),
        (3_500_000, 0o10016),
        (4_000_000, 0o10017),
    ];
    assert(table@ == speed_table());
    let mut i: usize = 0;
    while i < 31
        invariant
            i <= 31,
            table@ == speed_table(),
            forall|k: int| 0 <= k < i ==> speed_table()[k].1 != code,
        decreases 31 - i,
    {
        if table[i].1 == code {
            proof {
                assert forall|k: int|
                    0 <= k < speed_table().len() && speed_table()[k].1 == code implies speed_table()[k].0
                    == speed_table()[i as int].0 by {
                    assert(k == i as int);
                }
            }
            return Some(table[i].0);
        }
        i += 1;
    }
    None
}

/// Neighbouring rows of the speed table: both the speed and the code grow.
proof fn lemma_speed_table_step(k: int)
    requires
        0 <= k < speed_table().len() - 1,
    ensures
        speed_table()[k].0 < speed_table()[k + 1].0,
        speed_table()[k].1 < speed_table()[k + 1].1,
{
    if k == 0 {
        assert(speed_table()[0].0 < speed_table()[1].0);
        assert(speed_table()[0].1 < speed_table()[1].1);
    } else if k == 1 {
        assert(speed_table()[1].0 < speed_table()[2].0);
        assert(speed_table()[1].1 < speed_table()[2].1);
    } else if k == 2 {
        assert(speed_table()[2].0 < speed_table()[3].0);
        assert(speed_table()[2].1 < speed_table()[3].1);
    } else if k == 3 {
        assert(speed_table()[3].0 < speed_table()[4].0);
        assert(speed_table()[3].1 < speed_table()[4].1);
    } else if k == 4 {
        assert(speed_table()[4].0 < speed_table()[5].0);
        assert(speed_table()[4].1 < speed_table()[5].1);
    } else if k == 5 {
        assert(speed_table()[5].0 < speed_table()[6].0);
        assert(speed_table()[5].1 < speed_table()[6].1);
    } else if k == 6 {
        assert(speed_table()[6].0 < speed_table()[7].0);
        assert(speed_table()[6].1 < speed_table()[7].1);
    } else if k == 7 {
        assert(speed_table()[7].0 < speed_table()[8].0);
        assert(speed_table()[7].1 < speed_table()[8].1);
    } else if k == 8 {
        assert(speed_table()[8].0 < speed_table()[9].0);
        assert(speed_table()[8].1 < speed_table()[9].1);
    } else if k == 9 {
        assert(speed_table()[9].0 < speed_table()[10].0);
        assert(speed_table()[9].1 < speed_table()[10].1);
    } else if k == 10 {
        assert(speed_table()[10].0 < speed_table()[11].0);
        assert(speed_table()[10].1 < speed_table()[11].1);
    } else if k == 11 {
        assert(speed_table()[11].0 < speed_table()[12].0);
        assert(speed_table()[11].1 < speed_table()[12].1);
    } else if k == 12 {
        assert(speed_table()[12].0 < speed_table()[13].0);
        assert(speed_table()[12].1 < speed_table()[13].1);
    } else if k == 13 {
        assert(speed_table()[13].0 < speed_table()[14].0);
        assert(speed_table()[13].1 < speed_table()[14].1);
    } else if k == 14 {
        assert(speed_table()[14].0 < speed_table()[15].0);
        assert(speed_table()[14].1 < speed_table()[15].1);
    } else if k == 15 {
        assert(speed_table()[15].0 < speed_table()[16].0);
        assert(speed_table()[15].1 < speed_table()[16].1);
    } else if k == 16 {
        assert(speed_table()[16].0 < speed_table()[17].0);
        assert(speed_table()[16].1 < speed_table()[17].1);
    } else if k == 17 {
        assert(speed_table()[17].0 < speed_table()[18].0);
        assert(speed_table()[17].1 < speed_table()[18].1);
    } else if k == 18 {
        assert(speed_table()[18].0 < speed_table()[19].0);
        assert(speed_table()[18].1 < speed_table()[19].1);
    } else if k == 19 {
        assert(speed_table()[19].0 < speed_table()[20].0);
        assert(speed_table()[19].1 < speed_table()[20].1);
    } else if k == 20 {
        assert(speed_table()[20].0 < speed_table()[21].0);
        assert(speed_table()[20].1 < speed_table()[21].1);
    } else if k == 21 {
        assert(speed_table()[21].0 < speed_table()[22].0);
        assert(speed_table()[21].1 < speed_table()[22].1);
    } else if k == 22 {
        assert(speed_table()[22].0 < speed_table()[23].0);
        assert(speed_table()[22].1 < speed_table()[23].1);
    } else if k == 23 {
        assert(speed_table()[23].0 < speed_table()[24].0);
        assert(speed_table()[23].1 < speed_table()[24].1);
    } else if k == 24 {
        assert(speed_table()[24].0 < speed_table()[25].0);
        assert(speed_table()[24].1 < speed_table()[25].1);
    } else if k == 25 {
        assert(speed_table()[25].0 < speed_table()[26].0);
        assert(speed_table()[25].1 < speed_table()[26].1);
    } else if k == 26 {
        assert(speed_table()[26].0 < speed_table()[27].0);
        assert(speed_table()[26].1 < speed_table()[27].1);
    } else if k == 27 {
        assert(speed_table()[27].0 < speed_table()[28].0);
        assert(speed_table()[27].1 < speed_table()[28].1);
    } else if k == 28 {
        assert(speed_table()[28].0 < speed_table()[29].0);
        assert(speed_table()[28].1 < speed_table()[29].1);
    } else if k == 29 {
        assert(speed_table()[29].0 < speed_table()[30].0);
        assert(speed_table()[29].1 < speed_table()[30].1);
    }
}

/// Later rows of the speed table have greater speeds and greater codes.
proof fn lemma_speed_table_increasing(i: int, j: int)
    requires
        0 <= i < j < speed_table().len(),
    ensures
        speed_table()[i].0 < speed_table()[j].0,
        speed_table()[i].1 < speed_table()[j].1,
    decreases j - i,
{
    lemma_speed_table_step(j - 1);
    if i < j - 1 {
        lemma_speed_table_increasing(i, j - 1);
    }
}

/// The supported speeds and their codes determine each other: no two table
/// rows share a speed or a code. So the code `speed_code` gives for a speed
/// is turned back into that speed by `speed_from_code`, and the other way
/// round.
pub proof fn lemma_speed_table_one_to_one(i: int, j: int)
    requires
        0 <= i < speed_table().len(),
        0 <= j < speed_table().len(),
        i != j,
    ensures
        speed_table()[i].0 != speed_table()[j].0,
        speed_table()[i].1 != speed_table()[j].1,
{
    if i < j {
        lemma_speed_table_increasing(i, j);
    } else {
        lemma_speed_table_increasing(j, i);
    }
}

/// A line speed and a speed code that stand for each other: the table has a
/// row with both, the speed's row holds that code and the code's row holds
/// that speed. Then `speed_code(speed)` is `Some(code)` and
/// `speed_from_code(code)` is `Some(speed)`.
pub open spec fn speed_code_pair(speed: u32, code: u32) -> bool {
    &&& exists|k: int| 0 <= k < speed_table().len() && speed_table()[k] == (speed, code)
    &&& forall|k: int| 0 <= k < speed_table().len() && speed_table()[k].0 == speed ==> speed_table()[k].1 == code
    &&& forall|k: int| 0 <= k < speed_table().len() && speed_table()[k].1 == code ==> speed_table()[k].0 == speed
}

/// Each row of the speed table pairs its speed with its code.
proof fn lemma_speed_row(i: int)
    requires
        0 <= i < speed_table().len(),
    ensures
        speed_code_pair(speed_table()[i].0, speed_table()[i].1),
{
    assert forall|k: int| 0 <= k < speed_table().len() && speed_table()[k].0 == speed_table()[i].0
        implies speed_table()[k].1 == speed_table()[i].1 by {
        if k != i {
            lemma_speed_table_one_to_one(i, k);
        }
    }
    assert forall|k: int| 0 <= k < speed_table().len() && speed_table()[k].1 == speed_table()[i].1
        implies speed_table()[k].0 == speed_table()[i].0 by {
        if k != i {
            lemma_speed_table_one_to_one(i, k);
        }
    }
}

/// The supported line speeds are exactly the Linux termios ones, each with
/// its `B` constant from the kernel's `termbits.h`: B0 = 0, B50 = 1, ...,
/// B38400 = 15, then B57600 = 0o10001 up to B4000000 = 0o10017.
pub proof fn lemma_linux_speed_codes()
    ensures
        speed_table().len() == 31,
        // B0
        speed_code_pair(0, 0),
        // B50
        speed_code_pair(50, 1),
        // B75
        speed_code_pair(75, 2),
        // B110
        speed_code_pair(110, 3),
        // B134
        speed_code_pair(134, 4),
        // B150
        speed_code_pair(150, 5),
        // B200
        speed_code_pair(200, 6),
        // B300
        speed_code_pair(300, 7),
        // B600
        speed_code_pair(600, 8),
        // B1200
        speed_code_pair(1_200, 9),
        // B1800
        speed_code_pair(1_800, 10),
        // B2400
        speed_code_pair(2_400, 11),
        // B4800
        speed_code_pair(4_800, 12),
        // B9600
        speed_code_pair(9_600, 13),
        // B19200
        speed_code_pair(19_200, 14),
        // B38400
        speed_code_pair(38_400, 15),
        // B57600
        speed_code_pair(57_600, 0o10001),
        // B115200
        speed_code_pair(115_200, 0o10002),
        // B230400
        speed_code_pair(230_400, 0o10003),
        // B460800
        speed_code_pair(460_800, 0o10004),
        // B500000
        speed_code_pair(500_000, 0o10005),
        // B576000
        speed_code_pair(576_000, 0o10006),
        // B921600
        speed_code_pair(921_600, 0o10007),
        // B1000000
        speed_code_pair(1_000_000, 0o10010),
        // B1152000
        speed_code_pair(1_152_000, 0o10011),
        // B1500000
        speed_code_pair(1_500_000, 0o10012),
        // B2000000
        speed_code_pair(2_000_000, 0o10013),
        // B2500000
        speed_code_pair(2_500_000, 0o10014),
        // B3000000
        speed_code_pair(3_000_000, 0o10015),
        // B3500000
        speed_code_pair(3_500_000, 0o10016),
        // B4000000
        speed_code_pair(4_000_000, 0o10017),
{
    lemma_speed_row(0);
    assert(speed_table()[0] == (0u32, 0u32));
    lemma_speed_row(1);
    assert(speed_table()[1] == (50u32, 1u32));
    lemma_speed_row(2);
    assert(speed_table()[2] == (75u32, 2u32));
    lemma_speed_row(3);
    assert(speed_table()[3] == (110u32, 3u32));
    lemma_speed_row(4);
    assert(speed_table()[4] == (134u32, 4u32));
    lemma_speed_row(5);
    assert(speed_table()[5] == (150u32, 5u32));
    lemma_speed_row(6);
    assert(speed_table()[6] == (200u32, 6u32));
    lemma_speed_row(7);
    assert(speed_table()[7] == (300u32, 7u32));
    lemma_speed_row(8);
    assert(speed_table()[8] == (600u32, 8u32));
    lemma_speed_row(9);
    assert(speed_table()[9] == (1_200u32, 9u32));
    lemma_speed_row(10);
    assert(speed_table()[10] == (1_800u32, 10u32));
    lemma_speed_row(11);
    assert(speed_table()[11] == (2_400u32, 11u32));
    lemma_speed_row(12);
    assert(speed_table()[12] == (4_800u32, 12u32));
    lemma_speed_row(13);
    assert(speed_table()[13] == (9_600u32, 13u32));
    lemma_speed_row(14);
    assert(speed_table()[14] == (19_200u32, 14u32));
    lemma_speed_row(15);
    assert(speed_table()[15] == (38_400u32, 15u32));
    lemma_speed_row(16);
    assert(speed_table()[16] == (57_600u32, 0o10001u32));
    lemma_speed_row(17);
    assert(speed_table()[17] == (115_200u32, 0o10002u32));
    lemma_speed_row(18);
    assert(speed_table()[18] == (230_400u32, 0o10003u32));
    lemma_speed_row(19);
    assert(speed_table()[19] == (460_800u32, 0o10004u32));
    lemma_speed_row(20);
    assert(speed_table()[20] == (500_000u32, 0o10005u32));
    lemma_speed_row(21);
    assert(speed_table()[21] == (576_000u32, 0o10006u32));
    lemma_speed_row(22);
    assert(speed_table()[22] == (921_600u32, 0o10007u32));
    lemma_speed_row(23);
    assert(speed_table()[23] == (1_000_000u32, 0o10010u32));
    lemma_speed_row(24);
    assert(speed_table()[24] == (1_152_000u32, 0o10011u32));
    lemma_speed_row(25);
    assert(speed_table()[25] == (1_500_000u32, 0o10012u32));
    lemma_speed_row(26);
    assert(speed_table()[26] == (2_000_000u32, 0o10013u32));
    lemma_speed_row(27);
    assert(speed_table()[27] == (2_500_000u32, 0o10014u32));
    lemma_speed_row(28);
    assert(speed_table()[28] == (3_000_000u32, 0o10015u32));
    lemma_speed_row(29);
    assert(speed_table()[29] == (3_500_000u32, 0o10016u32));
    lemma_speed_row(30);
    assert(speed_table()[30] == (4_000_000u32, 0o10017u32));
}

/// The modem status lines.
#[derive(Debug, Copy, Clone, PartialEq, Eq, Structural)]
pub struct Status {
    tiocm: i32,
}

impl Status {
    /// The raw modem line bits.
    pub closed spec fn bits(self) -> i32 {
        self.tiocm
    }

    /// Status with the given modem line bits.
    pub fn new(tiocm: i32) -> (r: Status)
        ensures
            r.bits() == tiocm,
    {
        Status { tiocm }
    }

    /// Request To Send.
    pub fn rts(&self) -> (r: bool)
        ensures
            r == (self.bits() & TIOCM_RTS > 0),
    {
        self.tiocm & TIOCM_RTS > 0
    }

    /// Clear To Send.
    pub fn cts(&self) -> (r: bool)
        ensures
            r == (self.bits() & TIOCM_CTS > 0),
    {
        self.tiocm & TIOCM_CTS > 0
    }

    /// Data Terminal Ready.
    pub fn dtr(&self) -> (r: bool)
        ensures
            r == (self.bits() & TIOCM_DTR > 0),
    {
        self.tiocm & TIOCM_DTR > 0
    }

    /// Data Set Ready.
    pub fn dsr(&self) -> (r: bool)
        ensures
            r == (self.bits() & TIOCM_DSR > 0),
    {
        self.tiocm & TIOCM_DSR > 0
    }

    /// Data Carrier Detect.
    pub fn dcd(&self) -> (r: bool)
        ensures
            r == (self.bits() & TIOCM_CAR > 0),
    {
        self.tiocm & TIOCM_CAR > 0
    }

    /// Ring Indicator.
    pub fn ri(&self) -> (r: bool)
        ensures
            r == (self.bits() & TIOCM_RNG > 0),
    {
        self.tiocm & TIOCM_RNG > 0
    }
}

/// BCM GPIO number of the RTS pin on boards with a 40-pin header.
pub const GPIO_RTS: u8 = 17;
/// BCM GPIO number of the CTS pin on boards with a 40-pin header.
pub const GPIO_CTS: u8 = 16;
/// BCM GPIO number of the RTS pin on the model B rev 2 P5 header.
pub const GPIO_RTS_BREV2: u8 = 31;
/// BCM GPIO number of the CTS pin on the model B rev 2 P5 header.
pub const GPIO_CTS_BREV2: u8 = 30;

/// The modes of the RTS and CTS pins for a serial device, given the path
/// it resolves to: the PL011 (`/dev/ttyAMA0`) uses ALT3, the mini UART
/// (`/dev/ttyS0`) ALT5; other devices need no pins.
pub fn rtscts_mode(path: &[u8]) -> (r: Option<(Mode, Mode)>)
    ensures
        r == (if path@ == seq![47u8, 100, 101, 118, 47, 116, 116, 121, 65, 77, 65, 48] {
            // "/dev/ttyAMA0"
            Some((Mode::Alt3, Mode::Alt3))
        } else if path@ == seq![47u8, 100, 101, 118, 47, 116, 116, 121, 83, 48] {
            // "/dev/ttyS0"
            Some((Mode::Alt5, Mode::Alt5))
        } else {
            None
        }),
{
    let uart0: [u8; 12] = [47u8, 100, 101, 118, 47, 116, 116, 121, 65, 77, 65, 48];
    let uart1: [u8; 10] = [47u8, 100, 101, 118, 47, 116, 116, 121, 83, 48];
    if bytes_eq(path, &uart0) {
        Some((Mode::Alt3, Mode::Alt3))
    } else if bytes_eq(path, &uart1) {
        Some((Mode::Alt5, Mode::Alt5))
    } else {
        None
    }
}

/// The RTS and CTS pins of a model: the model B rev 2 exposes them on its P5
/// header, every other model on the 40-pin header.
pub fn rtscts_pins(model: Model) -> (r: (u8, u8))
    ensures
        r == (if model is RaspberryPiBRev2 {
            (GPIO_RTS_BREV2, GPIO_CTS_BREV2)
        } else {
            (GPIO_RTS, GPIO_CTS)
        }),
{
    if model == Model::RaspberryPiBRev2 {
        (GPIO_RTS_BREV2, GPIO_CTS_BREV2)
    } else {
        (GPIO_RTS, GPIO_CTS)
    }
}

/// Whether reads block, given the minimum number of bytes and the timeout in
/// whole milliseconds a read waits for.
pub fn read_blocks(min_length: u8, timeout_millis: u128) -> (r: bool)
    ensures
        r == (min_length > 0 || timeout_millis > 0),
{
    min_length > 0 || timeout_millis > 0
}

/// Whether the device is left in non-blocking mode: only when neither reads
/// nor writes block, since a non-blocking device ignores the read timeouts.
pub fn nonblocking_mode(blocking_read: bool, blocking_write: bool) -> (r: bool)
    ensures
        r == !(blocking_read || blocking_write),
{
    !(blocking_read || blocking_write)
}

/// Whether a write switches the device to non-blocking mode for its duration:
/// when reads block but writes don't.
pub fn write_toggles_nonblocking(blocking_read: bool, blocking_write: bool) -> (r: bool)
    ensures
        r == (blocking_read && !blocking_write),
{
    blocking_read && !blocking_write
}

/// How the other end is told to stop or resume sending.
#[derive(Debug, Copy, Clone, PartialEq, Eq, Structural)]
pub struct FlowSignals {
    /// Send an XOFF (stop) or XON (start) character.
    pub send_character: bool,
    /// Set the RTS line, to `rts_level`.
    pub set_rts: bool,
    /// The RTS level to set: low to stop, high to start.
    pub rts_level: bool,
}

/// What tells the other end to stop (`start` false) or resume (`start` true)
/// sending, given the flow control in use.
pub fn flow_signals(software_flow_control: bool, hardware_flow_control: bool, start: bool) -> (r: FlowSignals)
    ensures
        r == (FlowSignals {
            send_character: software_flow_control,
            set_rts: hardware_flow_control,
            rts_level: start,
        }),
{
    FlowSignals {
        send_character: software_flow_control,
        set_rts: hardware_flow_control,
        rts_level: start,
    }
}

/// What enabling or disabling hardware flow control does to the RTS/CTS pins.
#[derive(Debug, Copy, Clone, PartialEq, Eq, Structural)]
pub enum PinChange {
    /// The pins stay as they are.
    Keep,
    /// The pins are configured with these modes and held.
    Configure(Mode, Mode),
    /// The held pins are released, which restores their modes.
    Release,
}

/// The pin change when hardware flow control is set, given whether pins are
/// held already and the pin modes of the serial device.
pub fn hardware_flow_pins(hardware_flow_control: bool, pins_held: bool, mode: Option<(Mode, Mode)>) -> (r: PinChange)
    ensures
        hardware_flow_control && !pins_held ==> r == (match mode {
            Some((rts, cts)) => PinChange::Configure(rts, cts),
            None => PinChange::Keep,
        }),
        hardware_flow_control && pins_held ==> r == PinChange::Keep,
        !hardware_flow_control ==> r == PinChange::Release,
{
    if hardware_flow_control && !pins_held {
        match mode {
            Some((rts, cts)) => PinChange::Configure(rts, cts),
            None => PinChange::Keep,
        }
    } else if !hardware_flow_control {
        PinChange::Release
    } else {
        PinChange::Keep
    }
}

/// The text `Parity` is shown as.
pub open spec fn parity_text(v: Parity) -> &'static str {
    match v {
        Parity::NoParity => "None",
        Parity::Even => "Even",
        Parity::Odd => "Odd",
        Parity::Mark => "Mark",
        Parity::Space => "Space",
    }
}

impl Parity {
    /// The text the value is shown as.
    pub fn as_str(&self) -> (r: &'static str)
        ensures
            r == parity_text(*self),
    {
        match self {
            Parity::NoParity => "None",
            Parity::Even => "Even",
            Parity::Odd => "Odd",
            Parity::Mark => "Mark",
            Parity::Space => "Space",
        }
    }
}

/// The text `ParityCheck` is shown as.
pub open spec fn parity_check_text(v: ParityCheck) -> &'static str {
    match v {
        ParityCheck::NoCheck => "None",
        ParityCheck::Strip => "Strip",
        ParityCheck::Replace => "Replace",
        ParityCheck::Mark => "Mark",
    }
}

impl ParityCheck {
    /// The text the value is shown as.
    pub fn as_str(&self) -> (r: &'static str)
        ensures
            r == parity_check_text(*self),
    {
        match self {
            ParityCheck::NoCheck => "None",
            ParityCheck::Strip => "Strip",
            ParityCheck::Replace => "Replace",
            ParityCheck::Mark => "Mark",
        }
    }
}

/// The text `Queue` is shown as.
pub open spec fn queue_text(v: Queue) -> &'static str {
    match v {
        Queue::Input => "Input",
        Queue::Output => "Output",
        Queue::Both => "Both",
    }
}

impl Queue {
    /// The text the value is shown as.
    pub fn as_str(&self) -> (r: &'static str)
        ensures
            r == queue_text(*self),
    {
        match self {
            Queue::Input => "Input",
            Queue::Output => "Output",
            Queue::Both => "Both",
        }
    }
}

} // verus!
