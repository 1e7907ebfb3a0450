//! Register arithmetic for the BCM283x/BCM2711 GPIO block.
//!
//! The GPIO block is a bank of 32-bit registers. Function select registers
//! hold a 3-bit field per pin (ten pins per register), the set, clear and level
//! registers hold one bit per pin (32 pins per register), and the pull-up/down
//! control is clocked into a pin through a two-register protocol. The functions
//! here compute register offsets and register values; the caller performs the
//! volatile reads and writes on the mapped memory.
use vstd::prelude::*;
use crate::gpio::{Level, Mode, PullUpDown};

verus! {

/// Number of 32-bit registers in the GPIO block that are mapped.
pub const GPIO_MEM_REGISTERS: usize = 41;
/// Offset (in registers) of the first function select register.
pub const GPFSEL0: usize = 0;
/// Offset (in registers) of the first output set register.
pub const GPSET0: usize = 7;
/// Offset (in registers) of the first output clear register.
pub const GPCLR0: usize = 10;
/// Offset (in registers) of the first pin level register.
pub const GPLEV0: usize = 13;
/// Offset (in registers) of the pull-up/down control register.
pub const GPPUD: usize = 37;
/// Offset (in registers) of the first pull-up/down clock register.
pub const GPPUDCLK0: usize = 38;

/// The 3-bit function select code the hardware uses for a mode. Modes the
/// BCM function select field can't express are written as input.
pub open spec fn fsel_code(mode: Mode) -> u32 {
    match mode {
        Mode::Input => 0,
        Mode::Output => 1,
        Mode::Alt0 => 4,
        Mode::Alt1 => 5,
        Mode::Alt2 => 6,
        Mode::Alt3 => 7,
        Mode::Alt4 => 3,
        Mode::Alt5 => 2,
        _ => 0,
    }
}

/// The mode a 3-bit function select code stands for.
pub open spec fn mode_of_code(code: u32) -> Mode {
    if code == 0 {
        Mode::Input
    } else if code == 1 {
        Mode::Output
    } else if code == 2 {
        Mode::Alt5
    } else if code == 3 {
        Mode::Alt4
    } else if code == 4 {
        Mode::Alt0
    } else if code == 5 {
        Mode::Alt1
    } else if code == 6 {
        Mode::Alt2
    } else {
        Mode::Alt3
    }
}

/// Whether the BCM function select field can express a mode.
pub open spec fn bcm_mode(mode: Mode) -> bool {
    !(mode is Alt6 || mode is Alt7 || mode is Alt8)
}

/// Bit position of a pin's field in its function select register.
pub open spec fn fsel_shift_spec(pin: u8) -> u32 {
    ((pin % 10) * 3) as u32
}

/// The 3-bit function select field of a pin in a register value.
pub open spec fn fsel_field(reg: u32, pin: u8) -> u32 {
    (reg >> fsel_shift_spec(pin)) & 7
}

/// A function select register value with one pin's field replaced.
pub open spec fn fsel_update(reg: u32, pin: u8, mode: Mode) -> u32 {
    (reg & !(7u32 << fsel_shift_spec(pin))) | (fsel_code(mode) << fsel_shift_spec(pin))
}

/// The level bit of a pin in a level register value.
pub open spec fn level_bit(reg: u32, pin: u8) -> u32 {
    (reg >> ((pin % 32) as u32)) & 1
}

/// The 2-bit pull-up/down control code.
pub open spec fn pud_code(pud: PullUpDown) -> u32 {
    match pud {
        PullUpDown::Off => 0,
        PullUpDown::PullDown => 1,
        PullUpDown::PullUp => 2,
    }
}

/// Register offset of the function select register that holds a pin.
pub fn fsel_offset(pin: u8) -> (r: usize)
    ensures
        r == GPFSEL0 + pin / 10,
{
    GPFSEL0 + (pin / 10) as usize
}

/// Bit position of a pin's field in its function select register.
pub fn fsel_shift(pin: u8) -> (r: u32)
    ensures
        r == fsel_shift_spec(pin),
        r <= 27,
{
    ((pin % 10) as u32) * 3
}

/// The mode a pin is in, read from its function select register value.
pub fn mode_from_fsel(reg: u32, pin: u8) -> (r: Mode)
    ensures
        r == mode_of_code(fsel_field(reg, pin)),
{
    let shift = fsel_shift(pin);
    let code = (reg >> shift) & 7;
    if code == 0 {
        Mode::Input
    } else if code == 1 {
        Mode::Output
    } else if code == 2 {
        Mode::Alt5
    } else if code == 3 {
        Mode::Alt4
    } else if code == 4 {
        Mode::Alt0
    } else if code == 5 {
        Mode::Alt1
    } else if code == 6 {
        Mode::Alt2
    } else {
        Mode::Alt3
    }
}

/// The function select register value that puts a pin in a mode and keeps
/// the other pins of the register as they were.
pub fn fsel_with_mode(reg: u32, pin: u8, mode: Mode) -> (r: u32)
    ensures
        r == fsel_update(reg, pin, mode),
{
    let shift = fsel_shift(pin);
    let code: u32 = match mode {
        Mode::Input => 0,
        Mode::Output => 1,
        Mode::Alt0 => 4,
        Mode::Alt1 => 5,
        Mode::Alt2 => 6,
        Mode::Alt3 => 7,
        Mode::Alt4 => 3,
        Mode::Alt5 => 2,
        _ => 0,
    };
    (reg & !(7u32 << shift)) | (code << shift)
}

proof fn lemma_field_update(reg: u32, a: u32, b: u32, code: u32)
    requires
        a < 10,
        b < 10,
        code < 8,
    ensures
        (((reg & !(7u32 << (3 * a))) | (code << (3 * a))) >> (3 * a)) & 7 == code,
        a != b ==> (((reg & !(7u32 << (3 * a))) | (code << (3 * a))) >> (3 * b)) & 7 == (reg >> (3
            * b)) & 7,
{
    assert((((reg & !(7u32 << (3 * a))) | (code << (3 * a))) >> (3 * a)) & 7 == code)
        by (bit_vector)
        requires
            a < 10,
            code < 8,
    ;
    assert(a != b ==> (((reg & !(7u32 << (3 * a))) | (code << (3 * a))) >> (3 * b)) & 7 == (reg
        >> (3 * b)) & 7) by (bit_vector)
        requires
            a < 10,
            b < 10,
            code < 8,
    ;
}

/// Reading a pin's mode back after writing it gives the mode that was
/// written; modes the function select field can't express read back as input.
pub proof fn lemma_mode_roundtrip(reg: u32, pin: u8, mode: Mode)
    ensures
        mode_of_code(fsel_field(fsel_update(reg, pin, mode), pin)) == (if bcm_mode(mode) {
            mode
        } else {
            Mode::Input
        }),
{
    let a = (pin % 10) as u32;
    lemma_field_update(reg, a, a, fsel_code(mode));
    assert(fsel_shift_spec(pin) == 3 * a);
}

/// Writing a pin's mode leaves the mode of every other pin that shares the
/// register unchanged.
pub proof fn lemma_mode_frame(reg: u32, pin: u8, other: u8, mode: Mode)
    requires
        pin / 10 == other / 10,
        pin != other,
    ensures
        fsel_field(fsel_update(reg, pin, mode), other) == fsel_field(reg, other),
{
    let a = (pin % 10) as u32;
    let b = (other % 10) as u32;
    assert(a != b);
    lemma_field_update(reg, a, b, fsel_code(mode));
    assert(fsel_shift_spec(pin) == 3 * a);
    assert(fsel_shift_spec(other) == 3 * b);
}

/// Writing a mode puts the BCM2835 datasheet's function select code in the
/// pin's 3-bit field: 0b000 input, 0b001 output, 0b100 ALT0, 0b101 ALT1,
/// 0b110 ALT2, 0b111 ALT3, 0b011 ALT4, 0b010 ALT5; a mode the field can't
/// express is written as input.
pub proof fn lemma_fsel_codes(reg: u32, pin: u8)
    ensures
        fsel_field(fsel_update(reg, pin, Mode::Input), pin) == 0b000,
        fsel_field(fsel_update(reg, pin, Mode::Output), pin) == 0b001,
        fsel_field(fsel_update(reg, pin, Mode::Alt0), pin) == 0b100,
        fsel_field(fsel_update(reg, pin, Mode::Alt1), pin) == 0b101,
        fsel_field(fsel_update(reg, pin, Mode::Alt2), pin) == 0b110,
        fsel_field(fsel_update(reg, pin, Mode::Alt3), pin) == 0b111,
        fsel_field(fsel_update(reg, pin, Mode::Alt4), pin) == 0b011,
        fsel_field(fsel_update(reg, pin, Mode::Alt5), pin) == 0b010,
        fsel_field(fsel_update(reg, pin, Mode::Alt6), pin) == 0b000,
        fsel_field(fsel_update(reg, pin, Mode::Alt7), pin) == 0b000,
        fsel_field(fsel_update(reg, pin, Mode::Alt8), pin) == 0b000,
{
    let a = (pin % 10) as u32;
    assert(fsel_shift_spec(pin) == 3 * a);
    lemma_field_update(reg, a, a, 0);
    lemma_field_update(reg, a, a, 1);
    lemma_field_update(reg, a, a, 2);
    lemma_field_update(reg, a, a, 3);
    lemma_field_update(reg, a, a, 4);
    lemma_field_update(reg, a, a, 5);
    lemma_field_update(reg, a, a, 6);
    lemma_field_update(reg, a, a, 7);
}

/// A pin's function select field reads as the mode the BCM2835 datasheet
/// gives its code: 0b000 input, 0b001 output, 0b100 ALT0, 0b101 ALT1,
/// 0b110 ALT2, 0b111 ALT3, 0b011 ALT4, 0b010 ALT5.
pub proof fn lemma_fsel_decoding(reg: u32, pin: u8)
    ensures
        fsel_field(reg, pin) == 0b000 ==> mode_of_code(fsel_field(reg, pin)) == Mode::Input,
        fsel_field(reg, pin) == 0b001 ==> mode_of_code(fsel_field(reg, pin)) == Mode::Output,
        fsel_field(reg, pin) == 0b100 ==> mode_of_code(fsel_field(reg, pin)) == Mode::Alt0,
        fsel_field(reg, pin) == 0b101 ==> mode_of_code(fsel_field(reg, pin)) == Mode::Alt1,
        fsel_field(reg, pin) == 0b110 ==> mode_of_code(fsel_field(reg, pin)) == Mode::Alt2,
        fsel_field(reg, pin) == 0b111 ==> mode_of_code(fsel_field(reg, pin)) == Mode::Alt3,
        fsel_field(reg, pin) == 0b011 ==> mode_of_code(fsel_field(reg, pin)) == Mode::Alt4,
        fsel_field(reg, pin) == 0b010 ==> mode_of_code(fsel_field(reg, pin)) == Mode::Alt5,
{
}

/// The pull-up/down control value selects the datasheet's code in its two
/// low bits: 0b00 off, 0b01 pull-down, 0b10 pull-up.
pub proof fn lemma_pud_codes(reg: u32)
    ensures
        ((reg & !3u32) | pud_code(PullUpDown::Off)) & 3 == 0b00,
        ((reg & !3u32) | pud_code(PullUpDown::PullDown)) & 3 == 0b01,
        ((reg & !3u32) | pud_code(PullUpDown::PullUp)) & 3 == 0b10,
{
    lemma_pud_control_bits(reg, PullUpDown::Off);
    lemma_pud_control_bits(reg, PullUpDown::PullDown);
    lemma_pud_control_bits(reg, PullUpDown::PullUp);
}

/// The register bank after a pin's mode is written: the pin's function select
/// register, at `fsel_offset`, becomes `fsel_with_mode` of its old value, and
/// every other register is kept.
pub open spec fn bank_with_mode(regs: Seq<u32>, pin: u8, mode: Mode) -> Seq<u32> {
    regs.update(GPFSEL0 + pin / 10, fsel_update(regs[GPFSEL0 + pin / 10], pin, mode))
}

/// The mode of a pin as `mode_from_fsel` reads it from the register bank.
pub open spec fn bank_mode(regs: Seq<u32>, pin: u8) -> Mode {
    mode_of_code(fsel_field(regs[GPFSEL0 + pin / 10], pin))
}

/// Writing a pin's mode into the register bank replaces that pin's 3-bit
/// field in its function select register with the mode's code, keeps every
/// other register and the other pins' modes, and reads back as the mode
/// written (input for a mode the field can't express).
pub proof fn lemma_set_mode_bank(regs: Seq<u32>, pin: u8, mode: Mode)
    requires
        regs.len() == GPIO_MEM_REGISTERS,
        pin < 58,
    ensures
        ({
            let r = GPFSEL0 + pin / 10;
            let after = bank_with_mode(regs, pin, mode);
            &&& after.len() == regs.len()
            &&& after[r] == (regs[r] & !(7u32 << fsel_shift_spec(pin))) | (fsel_code(mode)
                << fsel_shift_spec(pin))
            &&& forall|i: int| 0 <= i < regs.len() && i != r ==> after[i] == regs[i]
            &&& bank_mode(after, pin) == (if bcm_mode(mode) {
                mode
            } else {
                Mode::Input
            })
            &&& forall|q: u8| q < 58 && q != pin ==> #[trigger] bank_mode(after, q) == bank_mode(
                regs,
                q,
            )
        }),
{
    let r = GPFSEL0 + pin / 10;
    let after = bank_with_mode(regs, pin, mode);
    lemma_mode_roundtrip(regs[r], pin, mode);
    assert forall|q: u8| q < 58 && q != pin implies #[trigger] bank_mode(after, q) == bank_mode(
        regs,
        q,
    ) by {
        if q / 10 == pin / 10 {
            lemma_mode_frame(regs[r], pin, q, mode);
        }
    }
}

/// Register offset of the level register that holds a pin.
pub fn level_offset(pin: u8) -> (r: usize)
    ensures
        r == GPLEV0 + pin / 32,
{
    GPLEV0 + (pin / 32) as usize
}

/// Register offset of the output set register that holds a pin.
pub fn set_offset(pin: u8) -> (r: usize)
    ensures
        r == GPSET0 + pin / 32,
{
    GPSET0 + (pin / 32) as usize
}

/// Register offset of the output clear register that holds a pin.
pub fn clr_offset(pin: u8) -> (r: usize)
    ensures
        r == GPCLR0 + pin / 32,
{
    GPCLR0 + (pin / 32) as usize
}

/// Register offset of the pull-up/down clock register that holds a pin.
pub fn pudclk_offset(pin: u8) -> (r: usize)
    ensures
        r == GPPUDCLK0 + pin / 32,
{
    GPPUDCLK0 + (pin / 32) as usize
}

/// The value with only the pin's bit set, as written to the set, clear and
/// pull-up/down clock registers.
pub fn pin_mask(pin: u8) -> (r: u32)
    ensures
        r == 1u32 << ((pin % 32) as u32),
{
    1u32 << ((pin % 32) as u32)
}

/// A pin's logic level, read from its level register value.
pub fn level_from_gplev(reg: u32, pin: u8) -> (r: Level)
    ensures
        r == (if level_bit(reg, pin) == 1 {
            Level::High
        } else {
            Level::Low
        }),
{
    if (reg >> ((pin % 32) as u32)) & 1 == 1 {
        Level::High
    } else {
        Level::Low
    }
}

/// The pin mask of a pin sets that pin's bit and no other pin's bit of the
/// register, so a set or clear write touches that pin alone.
pub proof fn lemma_pin_mask_single(pin: u8, other: u8)
    ensures
        level_bit(1u32 << ((pin % 32) as u32), pin) == 1,
        pin % 32 != other % 32 ==> level_bit(1u32 << ((pin % 32) as u32), other) == 0,
{
    let a = (pin % 32) as u32;
    let b = (other % 32) as u32;
    assert(((1u32 << a) >> a) & 1 == 1) by (bit_vector)
        requires
            a < 32,
    ;
    assert(a != b ==> ((1u32 << a) >> b) & 1 == 0) by (bit_vector)
        requires
            a < 32,
            b < 32,
    ;
}

/// The pull-up/down control register value that selects a resistor state and
/// keeps the register's other bits.
pub fn pud_control(reg: u32, pud: PullUpDown) -> (r: u32)
    ensures
        r == (reg & !3u32) | pud_code(pud),
{
    let code: u32 = match pud {
        PullUpDown::Off => 0,
        PullUpDown::PullDown => 1,
        PullUpDown::PullUp => 2,
    };
    (reg & !3u32) | code
}

/// The pull-up/down control register value that removes the control signal
/// and keeps the register's other bits.
pub fn pud_release(reg: u32) -> (r: u32)
    ensures
        r == reg & !3u32,
{
    reg & !3u32
}

/// One write of a value to a register of the GPIO block.
#[derive(Debug, Copy, Clone, PartialEq, Eq, Structural)]
pub struct RegisterWrite {
    /// Register offset, in 32-bit registers.
    pub offset: usize,
    /// Value written.
    pub value: u32,
}

/// The register writes that set a pin's pull-up/down resistor, in order,
/// given the value the control register held before. The caller waits at
/// least 5 µs after the first and after the second write: the first selects
/// the control signal, the second clocks it into the pin, the last two remove
/// the signal and the clock.
pub fn pullupdown_writes(pin: u8, pud: PullUpDown, gppud: u32) -> (r: Vec<RegisterWrite>)
    ensures
        r@ == seq![
            RegisterWrite { offset: GPPUD, value: (gppud & !3u32) | pud_code(pud) },
            RegisterWrite { offset: (GPPUDCLK0 + pin / 32) as usize, value: 1u32 << ((pin % 32) as u32) },
            RegisterWrite { offset: GPPUD, value: gppud & !3u32 },
            RegisterWrite { offset: (GPPUDCLK0 + pin / 32) as usize, value: 0 },
        ],
{
    let clk = pudclk_offset(pin);
    let mut writes: Vec<RegisterWrite> = Vec::new();
    writes.push(RegisterWrite { offset: GPPUD, value: pud_control(gppud, pud) });
    writes.push(RegisterWrite { offset: clk, value: pin_mask(pin) });
    writes.push(RegisterWrite { offset: GPPUD, value: pud_release(gppud) });
    writes.push(RegisterWrite { offset: clk, value: 0 });
    writes
}

/// The control value selects exactly the requested resistor state in its two
/// low bits and keeps every other bit of the register; the release value
/// clears the two low bits and keeps the rest.
pub proof fn lemma_pud_control_bits(reg: u32, pud: PullUpDown)
    ensures
        ((reg & !3u32) | pud_code(pud)) & 3 == pud_code(pud),
        ((reg & !3u32) | pud_code(pud)) & !3u32 == reg & !3u32,
        (reg & !3u32) & 3 == 0,
{
    let c = pud_code(pud);
    assert(((reg & !3u32) | c) & 3 == c && ((reg & !3u32) | c) & !3u32 == reg & !3u32 && (reg
        & !3u32) & 3 == 0) by (bit_vector)
        requires
            c < 3,
    ;
}

/// How mapping one of the two memory devices failed.
#[derive(Debug, Copy, Clone, PartialEq, Eq, Structural)]
pub enum MapError {
    /// Opening the device was refused.
    PermissionDenied,
    /// The model, needed for the `/dev/mem` offset, couldn't be identified.
    UnknownModel,
    /// Any other I/O error.
    Other,
}

/// What opening the GPIO memory ends in once `/dev/gpiomem` failed and
/// `/dev/mem` was tried too.
#[derive(Debug, Copy, Clone, PartialEq, Eq, Structural)]
pub enum FallbackOutcome {
    /// `/dev/mem` is mapped and used.
    UseDevMem,
    /// Permission was denied for `/dev/gpiomem`: the fix to suggest is joining
    /// the `gpio` group.
    DeniedGpiomem,
    /// Permission was denied for `/dev/mem` only.
    DeniedDevMem,
    /// The model couldn't be identified.
    UnknownModel,
    /// The error of `/dev/gpiomem` is reported.
    GpiomemError,
}

/// Chooses the outcome of opening the GPIO memory after mapping
/// `/dev/gpiomem` failed with `gpiomem`, from how mapping `/dev/mem` went
/// (`None` for success). When both were refused, the `/dev/gpiomem` refusal
/// is the one reported, as fixing it doesn't need root.
pub fn fallback_outcome(gpiomem: MapError, devmem: Option<MapError>) -> (r: FallbackOutcome)
    ensures
        r == (match devmem {
            None => FallbackOutcome::UseDevMem,
            Some(MapError::PermissionDenied) => if gpiomem == MapError::PermissionDenied {
                FallbackOutcome::DeniedGpiomem
            } else {
                FallbackOutcome::DeniedDevMem
            },
            Some(MapError::UnknownModel) => FallbackOutcome::UnknownModel,
            Some(MapError::Other) => FallbackOutcome::GpiomemError,
        }),
{
    match devmem {
        None => FallbackOutcome::UseDevMem,
        Some(MapError::PermissionDenied) => match gpiomem {
            MapError::PermissionDenied => FallbackOutcome::DeniedGpiomem,
            _ => FallbackOutcome::DeniedDevMem,
        },
        Some(MapError::UnknownModel) => FallbackOutcome::UnknownModel,
        Some(MapError::Other) => FallbackOutcome::GpiomemError,
    }
}

/// The `/dev/mem` offset of the GPIO block: the peripheral base address plus
/// the GPIO block's offset.
pub fn devmem_offset(peripheral_base: u32, gpio_offset: u32) -> (r: u64)
    ensures
        r == peripheral_base + gpio_offset,
{
    peripheral_base as u64 + gpio_offset as u64
}

} // verus!
