//! Linux `ioctl` request numbers: direction, type, number and argument size
//! packed into one word.
use vstd::prelude::*;

verus! {

/// Direction bits: no data.
pub const DIR_NONE: u64 = 0;
/// Direction bits: userspace writes.
pub const DIR_WRITE: u64 = 1;
/// Direction bits: userspace reads.
pub const DIR_READ: u64 = 2;
/// Direction bits: both.
pub const DIR_READ_WRITE: u64 = 3;

/// Request type of the GPIO character device.
pub const TYPE_GPIO: u64 = 0xB4;
/// Request type of spidev (`'k'`).
pub const TYPE_SPI: u64 = 0x6B;

/// The request number for a direction, type, number and argument size:
/// bits 0-7 hold the number, 8-15 the type, 16-29 the size, 30-31 the
/// direction.
pub open spec fn request(dir: u64, ty: u64, nr: u64, size: u64) -> u64 {
    (dir * 0x4000_0000 + size * 0x1_0000 + ty * 0x100 + nr) as u64
}

/// Packs a request number.
pub fn request_code(dir: u64, ty: u64, nr: u64, size: u64) -> (r: u64)
    requires
        dir < 4,
        ty < 0x100,
        nr < 0x100,
        size < 0x4000,
    ensures
        r == request(dir, ty, nr, size),
        r >> 30u64 == dir,
        (r >> 16u64) & 0x3FFF == size,
        (r >> 8u64) & 0xFF == ty,
        r & 0xFF == nr,
{
    let r = (dir << 30u64) | (size << 16u64) | (ty << 8u64) | nr;
    assert(r == (dir * 0x4000_0000 + size * 0x1_0000 + ty * 0x100 + nr) && r >> 30u64 == dir && (r
        >> 16u64) & 0x3FFF == size && (r >> 8u64) & 0xFF == ty && r & 0xFF == nr) by (bit_vector)
        requires
            r == (dir << 30u64) | (size << 16u64) | (ty << 8u64) | nr,
            dir < 4,
            ty < 0x100,
            nr < 0x100,
            size < 0x4000,
    ;
    r
}

/// Size in bytes of one SPI transfer segment as the kernel lays it out.
pub const SPI_TRANSFER_SIZE: u64 = 32;

/// The spidev request that transfers `segments` segments at once.
pub fn spi_message_request(segments: u64) -> (r: u64)
    requires
        segments * SPI_TRANSFER_SIZE < 0x4000,
    ensures
        r == request(DIR_WRITE, TYPE_SPI, 0, (segments * SPI_TRANSFER_SIZE) as u64),
{
    request_code(DIR_WRITE, TYPE_SPI, 0, segments * SPI_TRANSFER_SIZE)
}

/// Reads the GPIO chip information (68 bytes).
pub fn gpio_get_chipinfo() -> (r: u64)
    ensures
        r == request(DIR_READ, TYPE_GPIO, 0x01, 68),
{
    request_code(DIR_READ, TYPE_GPIO, 0x01, 68)
}

/// Reads a GPIO line's information (256 bytes).
pub fn gpio_v2_get_lineinfo() -> (r: u64)
    ensures
        r == request(DIR_READ_WRITE, TYPE_GPIO, 0x05, 256),
{
    request_code(DIR_READ_WRITE, TYPE_GPIO, 0x05, 256)
}

/// Requests GPIO lines (592 bytes).
pub fn gpio_v2_get_line() -> (r: u64)
    ensures
        r == request(DIR_READ_WRITE, TYPE_GPIO, 0x07, 592),
{
    request_code(DIR_READ_WRITE, TYPE_GPIO, 0x07, 592)
}

/// Sets the configuration of requested GPIO lines (272 bytes).
pub fn gpio_v2_line_set_config() -> (r: u64)
    ensures
        r == request(DIR_READ_WRITE, TYPE_GPIO, 0x0D, 272),
{
    request_code(DIR_READ_WRITE, TYPE_GPIO, 0x0D, 272)
}

/// Reads the values of requested GPIO lines (16 bytes).
pub fn gpio_v2_line_get_values() -> (r: u64)
    ensures
        r == request(DIR_READ_WRITE, TYPE_GPIO, 0x0E, 16),
{
    request_code(DIR_READ_WRITE, TYPE_GPIO, 0x0E, 16)
}

/// Sets the values of requested GPIO lines (16 bytes).
pub fn gpio_v2_line_set_values() -> (r: u64)
    ensures
        r == request(DIR_READ_WRITE, TYPE_GPIO, 0x0F, 16),
{
    request_code(DIR_READ_WRITE, TYPE_GPIO, 0x0F, 16)
}

/// Requests edge events of a GPIO line (48 bytes).
pub fn gpio_get_lineevent() -> (r: u64)
    ensures
        r == request(DIR_READ_WRITE, TYPE_GPIO, 0x04, 48),
{
    request_code(DIR_READ_WRITE, TYPE_GPIO, 0x04, 48)
}

/// A spidev request that reads (`read` true) or writes one of the mode,
/// bit order, bits per word (one byte each), maximum speed or 32-bit mode
/// (four bytes each) settings, by its number 1 to 5.
pub fn spi_setting_request(read: bool, nr: u64) -> (r: u64)
    requires
        1 <= nr <= 5,
    ensures
        r == request(
            if read {
                DIR_READ
            } else {
                DIR_WRITE
            },
            TYPE_SPI,
            nr,
            if nr >= 4 {
                4
            } else {
                1
            },
        ),
{
    let dir = if read {
        DIR_READ
    } else {
        DIR_WRITE
    };
    let size = if nr >= 4 {
        4
    } else {
        1
    };
    request_code(dir, TYPE_SPI, nr, size)
}

} // verus!
