//! I2C bus: SMBus data encoding, bus capabilities and slave address rules.
//!
//! The caller talks to the `i2cdev` device; the functions here decide what is
//! sent and how replies are decoded.
use vstd::prelude::*;
use crate::system::Model;

verus! {

/// Errors that can occur when accessing the I2C peripheral.
#[derive(Debug)]
pub enum Error {
    /// I/O error.
    Io(std::io::Error),
    /// The slave address is reserved, invalid or not supported.
    InvalidSlaveAddress(u16),
    /// The I2C/SMBus feature isn't supported by the bus.
    FeatureNotSupported,
    /// The Raspberry Pi model can't be identified.
    UnknownModel,
}

/// Capability bit: plain I2C transfers.
pub const FUNC_I2C: u64 = 0x01;
/// Capability bit: 10-bit slave addresses.
pub const FUNC_10BIT_ADDR: u64 = 0x02;
/// Capability bit: protocol mangling.
pub const FUNC_PROTOCOL_MANGLING: u64 = 0x04;
/// Capability bit: SMBus packet error checking.
pub const FUNC_SMBUS_PEC: u64 = 0x08;
/// Capability bit: transfers without a repeated start.
pub const FUNC_NOSTART: u64 = 0x10;
/// Capability bit: slave mode.
pub const FUNC_SLAVE: u64 = 0x20;
/// Capability bit: SMBus block process call.
pub const FUNC_SMBUS_BLOCK_PROC_CALL: u64 = 0x8000;
/// Capability bit: SMBus quick command.
pub const FUNC_SMBUS_QUICK: u64 = 0x01_0000;
/// Capability bit: SMBus receive byte.
pub const FUNC_SMBUS_READ_BYTE: u64 = 0x02_0000;
/// Capability bit: SMBus send byte.
pub const FUNC_SMBUS_WRITE_BYTE: u64 = 0x04_0000;
/// Capability bit: SMBus read byte.
pub const FUNC_SMBUS_READ_BYTE_DATA: u64 = 0x08_0000;
/// Capability bit: SMBus write byte.
pub const FUNC_SMBUS_WRITE_BYTE_DATA: u64 = 0x10_0000;
/// Capability bit: SMBus read word.
pub const FUNC_SMBUS_READ_WORD_DATA: u64 = 0x20_0000;
/// Capability bit: SMBus write word.
pub const FUNC_SMBUS_WRITE_WORD_DATA: u64 = 0x40_0000;
/// Capability bit: SMBus process call.
pub const FUNC_SMBUS_PROC_CALL: u64 = 0x80_0000;
/// Capability bit: SMBus block read.
pub const FUNC_SMBUS_READ_BLOCK_DATA: u64 = 0x0100_0000;
/// Capability bit: SMBus block write.
pub const FUNC_SMBUS_WRITE_BLOCK_DATA: u64 = 0x0200_0000;
/// Capability bit: I2C block read.
pub const FUNC_SMBUS_READ_I2C_BLOCK: u64 = 0x0400_0000;
/// Capability bit: I2C block write.
pub const FUNC_SMBUS_WRITE_I2C_BLOCK: u64 = 0x0800_0000;
/// Capability bit: SMBus host notify.
pub const FUNC_SMBUS_HOST_NOTIFY: u64 = 0x1000_0000;

/// Maximum number of data bytes of a block transfer.
pub const SMBUS_BLOCK_MAX: usize = 32;

/// Flag of a combined transfer segment that reads.
pub const RDWR_FLAG_RD: u16 = 0x0001;
/// Flag of a combined transfer segment with a 10-bit slave address.
pub const RDWR_FLAG_TEN: u16 = 0x0010;

/// The features an I2C bus supports, as reported by the driver.
#[derive(Debug, Copy, Clone, PartialEq, Eq, Structural)]
pub struct Capabilities {
    funcs: u64,
}

impl Capabilities {
    /// The capability bits.
    pub closed spec fn bits(self) -> u64 {
        self.funcs
    }

    /// Capabilities with the given bits.
    pub fn new(funcs: u64) -> (r: Capabilities)
        ensures
            r.bits() == funcs,
    {
        Capabilities { funcs }
    }

    /// Plain I2C transfers are supported.
    pub fn i2c(self) -> (r: bool)
        ensures
            r == (self.bits() & FUNC_I2C > 0),
    {
        (self.funcs & FUNC_I2C) > 0
    }

    /// Slave mode is supported.
    pub fn slave(self) -> (r: bool)
        ensures
            r == (self.bits() & FUNC_SLAVE > 0),
    {
        (self.funcs & FUNC_SLAVE) > 0
    }

    /// 10-bit slave addresses are supported.
    pub fn addr_10bit(self) -> (r: bool)
        ensures
            r == (self.bits() & FUNC_10BIT_ADDR > 0),
    {
        (self.funcs & FUNC_10BIT_ADDR) > 0
    }

    /// I2C block reads are supported.
    pub fn i2c_block_read(self) -> (r: bool)
        ensures
            r == (self.bits() & FUNC_SMBUS_READ_I2C_BLOCK > 0),
    {
        (self.funcs & FUNC_SMBUS_READ_I2C_BLOCK) > 0
    }

    /// I2C block writes are supported.
    pub fn i2c_block_write(self) -> (r: bool)
        ensures
            r == (self.bits() & FUNC_SMBUS_WRITE_I2C_BLOCK > 0),
    {
        (self.funcs & FUNC_SMBUS_WRITE_I2C_BLOCK) > 0
    }

    /// Protocol mangling is supported.
    pub fn protocol_mangling(self) -> (r: bool)
        ensures
            r == (self.bits() & FUNC_PROTOCOL_MANGLING > 0),
    {
        (self.funcs & FUNC_PROTOCOL_MANGLING) > 0
    }

    /// Transfers without a repeated start are supported.
    pub fn nostart(self) -> (r: bool)
        ensures
            r == (self.bits() & FUNC_NOSTART > 0),
    {
        (self.funcs & FUNC_NOSTART) > 0
    }

    /// SMBus quick command is supported.
    pub fn smbus_quick_command(self) -> (r: bool)
        ensures
            r == (self.bits() & FUNC_SMBUS_QUICK > 0),
    {
        (self.funcs & FUNC_SMBUS_QUICK) > 0
    }

    /// SMBus receive byte is supported.
    pub fn smbus_receive_byte(self) -> (r: bool)
        ensures
            r == (self.bits() & FUNC_SMBUS_READ_BYTE > 0),
    {
        (self.funcs & FUNC_SMBUS_READ_BYTE) > 0
    }

    /// SMBus send byte is supported.
    pub fn smbus_send_byte(self) -> (r: bool)
        ensures
            r == (self.bits() & FUNC_SMBUS_WRITE_BYTE > 0),
    {
        (self.funcs & FUNC_SMBUS_WRITE_BYTE) > 0
    }

    /// SMBus read byte is supported.
    pub fn smbus_read_byte(self) -> (r: bool)
        ensures
            r == (self.bits() & FUNC_SMBUS_READ_BYTE_DATA > 0),
    {
        (self.funcs & FUNC_SMBUS_READ_BYTE_DATA) > 0
    }

    /// SMBus write byte is supported.
    pub fn smbus_write_byte(self) -> (r: bool)
        ensures
            r == (self.bits() & FUNC_SMBUS_WRITE_BYTE_DATA > 0),
    {
        (self.funcs & FUNC_SMBUS_WRITE_BYTE_DATA) > 0
    }

    /// SMBus read word is supported.
    pub fn smbus_read_word(self) -> (r: bool)
        ensures
            r == (self.bits() & FUNC_SMBUS_READ_WORD_DATA > 0),
    {
        (self.funcs & FUNC_SMBUS_READ_WORD_DATA) > 0
    }

    /// SMBus write word is supported.
    pub fn smbus_write_word(self) -> (r: bool)
        ensures
            r == (self.bits() & FUNC_SMBUS_WRITE_WORD_DATA > 0),
    {
        (self.funcs & FUNC_SMBUS_WRITE_WORD_DATA) > 0
    }

    /// SMBus process call is supported.
    pub fn smbus_process_call(self) -> (r: bool)
        ensures
            r == (self.bits() & FUNC_SMBUS_PROC_CALL > 0),
    {
        (self.funcs & FUNC_SMBUS_PROC_CALL) > 0
    }

    /// SMBus block read is supported.
    pub fn smbus_block_read(self) -> (r: bool)
        ensures
            r == (self.bits() & FUNC_SMBUS_READ_BLOCK_DATA > 0),
    {
        (self.funcs & FUNC_SMBUS_READ_BLOCK_DATA) > 0
    }

    /// SMBus block write is supported.
    pub fn smbus_block_write(self) -> (r: bool)
        ensures
            r == (self.bits() & FUNC_SMBUS_WRITE_BLOCK_DATA > 0),
    {
        (self.funcs & FUNC_SMBUS_WRITE_BLOCK_DATA) > 0
    }

    /// SMBus block process call is supported.
    pub fn smbus_block_process_call(self) -> (r: bool)
        ensures
            r == (self.bits() & FUNC_SMBUS_BLOCK_PROC_CALL > 0),
    {
        (self.funcs & FUNC_SMBUS_BLOCK_PROC_CALL) > 0
    }

    /// SMBus packet error checking is supported.
    pub fn smbus_pec(self) -> (r: bool)
        ensures
            r == (self.bits() & FUNC_SMBUS_PEC > 0),
    {
        (self.funcs & FUNC_SMBUS_PEC) > 0
    }

    /// SMBus host notify is supported.
    pub fn smbus_host_notify(self) -> (r: bool)
        ensures
            r == (self.bits() & FUNC_SMBUS_HOST_NOTIFY > 0),
    {
        (self.funcs & FUNC_SMBUS_HOST_NOTIFY) > 0
    }
}

/// The bus a model's I2C header pins are wired to: bus 0 on the first model
/// B revision, bus 1 on every other model.
pub fn default_bus(model: Model) -> (r: u8)
    ensures
        r == (if model is RaspberryPiBRev1 {
            0u8
        } else {
            1u8
        }),
{
    match model {
        Model::RaspberryPiBRev1 => 0,
        _ => 1,
    }
}

/// Whether a slave address may be used. With 7-bit addresses, the reserved
/// addresses 0x00-0x07 and 0x78-0x7F and anything above 0x7F are refused; with
/// 10-bit addresses, anything above 0x3FF.
pub open spec fn slave_address_valid(addr_10bit: bool, slave_address: u16) -> bool {
    if addr_10bit {
        slave_address <= 0x03FF
    } else {
        8 <= slave_address <= 0x7F && (slave_address >> 3u16) != 0b1111
    }
}

/// Checks a slave address before it is handed to the driver.
pub fn check_slave_address(addr_10bit: bool, slave_address: u16) -> (r: Result<(), Error>)
    ensures
        slave_address_valid(addr_10bit, slave_address) ==> r is Ok,
        !slave_address_valid(addr_10bit, slave_address) ==> (r matches Err(
            Error::InvalidSlaveAddress(a),
        ) && a == slave_address),
{
    if (!addr_10bit && (slave_address < 8 || (slave_address >> 3u16) == 0b1111 || slave_address
        > 0x7F)) || (addr_10bit && slave_address > 0x03FF) {
        return Err(Error::InvalidSlaveAddress(slave_address));
    }
    Ok(())
}

/// The 7-bit addresses that pass the check are exactly 0x08 to 0x77.
pub proof fn lemma_valid_7bit_range(slave_address: u16)
    ensures
        slave_address_valid(false, slave_address) <==> 0x08 <= slave_address <= 0x77,
{
    assert(slave_address <= 0x7F ==> ((slave_address >> 3u16) == 0b1111 <==> 0x78
        <= slave_address)) by (bit_vector);
}

/// The 16-bit word with its two bytes swapped.
pub open spec fn swapped(value: u16) -> u16 {
    ((value & 0xFF00) >> 8u16) | ((value & 0xFF) << 8u16)
}

/// Swaps the two bytes of a word, for devices that send the high byte first.
pub fn swap_bytes(value: u16) -> (r: u16)
    ensures
        r == swapped(value),
        r as int == (value as int % 256) * 256 + value as int / 256,
{
    assert((((value & 0xFF00) >> 8u16) | ((value & 0xFF) << 8u16)) as int == (value as int % 256)
        * 256 + value as int / 256) by (bit_vector);
    ((value & 0xFF00) >> 8u16) | ((value & 0xFF) << 8u16)
}

/// Swapping twice gives the word back.
pub proof fn lemma_swap_involutive(value: u16)
    ensures
        swapped(swapped(value)) == value,
{
    assert((((((value & 0xFF00) >> 8u16) | ((value & 0xFF) << 8u16)) & 0xFF00) >> 8u16) | ((((
    (value & 0xFF00) >> 8u16) | ((value & 0xFF) << 8u16)) & 0xFF) << 8u16) == value)
        by (bit_vector);
}

/// The clock frequency stored in the device tree as a big-endian 32-bit value.
pub fn clock_speed_from_bytes(buffer: [u8; 4]) -> (r: u32)
    ensures
        r as int == buffer@[0] as int * 0x100_0000 + buffer@[1] as int * 0x1_0000 + buffer@[2] as int
            * 0x100 + buffer@[3] as int,
{
    let b0 = buffer[0];
    let b1 = buffer[1];
    let b2 = buffer[2];
    let b3 = buffer[3];
    let r = (b3 as u32) | ((b2 as u32) << 8u32) | ((b1 as u32) << 16u32) | ((b0 as u32) << 24u32);
    assert(((b3 as u32) | ((b2 as u32) << 8u32) | ((b1 as u32) << 16u32) | ((b0 as u32) << 24u32))
        as int == b0 as int * 0x100_0000 + b1 as int * 0x1_0000 + b2 as int * 0x100 + b3 as int)
        by (bit_vector);
    r
}

/// The transaction timeout in the driver's units of 10 ms, for a timeout in
/// milliseconds: a nonzero timeout below 10 ms becomes one unit, anything else
/// is rounded down.
pub fn timeout_ticks(value: u64) -> (r: u64)
    ensures
        r == (if value > 0 && value < 10 {
            1
        } else {
            value / 10
        }),
{
    if value > 0 && value < 10 {
        1
    } else {
        value / 10
    }
}

/// Read or write direction of an SMBus request.
#[derive(Debug, Copy, Clone, PartialEq, Eq, Structural)]
pub enum SmbusReadWrite {
    Read,
    Write,
}

impl SmbusReadWrite {
    /// The code the driver expects.
    pub fn code(self) -> (r: u8)
        ensures
            r == (if self is Read {
                1u8
            } else {
                0u8
            }),
    {
        match self {
            SmbusReadWrite::Read => 1,
            SmbusReadWrite::Write => 0,
        }
    }
}

/// Size and type of the data of an SMBus request.
#[derive(Debug, Copy, Clone, PartialEq, Eq, Structural)]
pub enum SmbusSize {
    Quick,
    Byte,
    ByteData,
    WordData,
    ProcCall,
    BlockData,
    I2cBlockData,
}

impl SmbusSize {
    /// The code the driver expects.
    pub fn code(self) -> (r: u32)
        ensures
            r == (match self {
                SmbusSize::Quick => 0u32,
                SmbusSize::Byte => 1,
                SmbusSize::ByteData => 2,
                SmbusSize::WordData => 3,
                SmbusSize::ProcCall => 4,
                SmbusSize::BlockData => 5,
                SmbusSize::I2cBlockData => 8,
            }),
    {
        match self {
            SmbusSize::Quick => 0,
            SmbusSize::Byte => 1,
            SmbusSize::ByteData => 2,
            SmbusSize::WordData => 3,
            SmbusSize::ProcCall => 4,
            SmbusSize::BlockData => 5,
            SmbusSize::I2cBlockData => 8,
        }
    }
}

/// The direction a quick command sends: the command bit travels in the
/// read/write field, `true` as a read.
pub fn quick_command_direction(value: bool) -> (r: SmbusReadWrite)
    ensures
        r == (if value {
            SmbusReadWrite::Read
        } else {
            SmbusReadWrite::Write
        }),
{
    if value {
        SmbusReadWrite::Read
    } else {
        SmbusReadWrite::Write
    }
}

/// The data of an SMBus request: a byte, a little-endian word, or a block
/// whose first byte holds its length, followed by up to 32 data bytes and a
/// padding byte.
#[derive(Debug, Copy, Clone)]
pub struct SmbusBuffer {
    pub data: [u8; 34],
}

/// The 16-bit word a buffer holds, low byte first.
pub open spec fn buffer_word(data: Seq<u8>) -> u16 {
    (data[0] as int + data[1] as int * 256) as u16
}

impl SmbusBuffer {
    /// An all-zero buffer.
    pub fn new() -> (r: SmbusBuffer)
        ensures
            r.data@ == Seq::new(34, |i: int| 0u8),
    {
        let r = SmbusBuffer { data: [0u8; 34] };
        assert(r.data@ =~= Seq::new(34, |i: int| 0u8));
        r
    }

    /// A buffer holding one byte.
    pub fn with_byte(value: u8) -> (r: SmbusBuffer)
        ensures
            r.data@ == Seq::new(34, |i: int| 0u8).update(0, value),
    {
        let mut buffer = SmbusBuffer::new();
        buffer.data[0] = value;
        buffer
    }

    /// A buffer holding a word, low byte first.
    pub fn with_word(value: u16) -> (r: SmbusBuffer)
        ensures
            r.data@ == Seq::new(34, |i: int| 0u8).update(0, (value % 256) as u8).update(
                1,
                (value / 256) as u8,
            ),
            buffer_word(r.data@) == value,
    {
        let mut buffer = SmbusBuffer::new();
        let low = (value & 0xFF) as u8;
        let high = (value >> 8u16) as u8;
        assert(low == value % 256 && high == value / 256) by (bit_vector)
            requires
                low == (value & 0xFF) as u8,
                high == (value >> 8u16) as u8,
        ;
        buffer.data[0] = low;
        buffer.data[1] = high;
        buffer
    }

    /// A buffer holding a block: its length, at most 32, then its first bytes.
    pub fn with_buffer(value: &[u8]) -> (r: SmbusBuffer)
        ensures
            ({
                let n = if value@.len() > SMBUS_BLOCK_MAX {
                    SMBUS_BLOCK_MAX as int
                } else {
                    value@.len() as int
                };
                &&& r.data@[0] == n as u8
                &&& r.data@.subrange(1, n + 1) == value@.subrange(0, n)
                &&& forall|i: int| n + 1 <= i < 34 ==> r.data@[i] == 0
            }),
    {
        let mut buffer = SmbusBuffer::new();
        let n: usize = if value.len() > SMBUS_BLOCK_MAX {
            SMBUS_BLOCK_MAX
        } else {
            value.len()
        };
        let mut i: usize = 0;
        while i < n
            invariant
                n <= SMBUS_BLOCK_MAX,
                n <= value@.len(),
                i <= n,
                buffer.data@[0] == 0,
                forall|k: int| 1 <= k < i + 1 ==> buffer.data@[k] == value@[k - 1],
                forall|k: int| i + 1 <= k < 34 ==> buffer.data@[k] == 0,
            decreases n - i,
        {
            buffer.data[i + 1] = value[i];
            i += 1;
        }
        buffer.data[0] = n as u8;
        assert(buffer.data@.subrange(1, n + 1) =~= value@.subrange(0, n as int));
        buffer
    }

    /// The first byte of the buffer.
    pub fn byte(&self) -> (r: u8)
        ensures
            r == self.data@[0],
    {
        self.data[0]
    }

    /// The word the buffer holds, low byte first.
    pub fn word(&self) -> (r: u16)
        ensures
            r == buffer_word(self.data@),
    {
        let a = self.data[0];
        let b = self.data[1];
        assert((a as u16) | ((b as u16) << 8u16) == (a as int + b as int * 256) as u16)
            by (bit_vector);
        (a as u16) | ((b as u16) << 8u16)
    }

    /// The length of the block the buffer holds, guarding against a corrupt
    /// length byte: never more than 32.
    pub fn block_len(&self) -> (r: usize)
        ensures
            r == (if self.data@[0] > SMBUS_BLOCK_MAX {
                SMBUS_BLOCK_MAX as int
            } else {
                self.data@[0] as int
            }),
    {
        if self.data[0] as usize > SMBUS_BLOCK_MAX {
            SMBUS_BLOCK_MAX
        } else {
            self.data[0] as usize
        }
    }

    /// Copies a received block into `value`, as much of it as fits, and
    /// returns the block's length (which may exceed what was copied).
    pub fn copy_block(&self, value: &mut [u8]) -> (r: usize)
        ensures
            r == (if self.data@[0] > SMBUS_BLOCK_MAX {
                SMBUS_BLOCK_MAX as int
            } else {
                self.data@[0] as int
            }),
            final(value)@.len() == old(value)@.len(),
            ({
                let n = if r > old(value)@.len() {
                    old(value)@.len() as int
                } else {
                    r as int
                };
                &&& final(value)@.subrange(0, n) == self.data@.subrange(1, n + 1)
                &&& final(value)@.subrange(n, final(value)@.len() as int) == old(value)@.subrange(
                    n,
                    old(value)@.len() as int,
                )
            }),
    {
        let len = self.block_len();
        let n = if len > value.len() {
            value.len()
        } else {
            len
        };
        let mut i: usize = 0;
        while i < n
            invariant
                n <= value.len(),
                n <= SMBUS_BLOCK_MAX,
                i <= n,
                value@.len() == old(value)@.len(),
                forall|k: int| 0 <= k < i ==> value@[k] == self.data@[k + 1],
                forall|k: int| n <= k < value@.len() ==> value@[k] == old(value)@[k],
            decreases n - i,
        {
            value[i] = self.data[i + 1];
            i += 1;
        }
        assert(value@.subrange(0, n as int) =~= self.data@.subrange(1, n + 1));
        assert(value@.subrange(n as int, value@.len() as int) =~= old(value)@.subrange(
            n as int,
            old(value)@.len() as int,
        ));
        len
    }
}

/// Writing a word into a buffer and reading it back gives the word.
pub proof fn lemma_word_roundtrip(value: u16, data: Seq<u8>)
    requires
        data.len() == 34,
        data[0] == (value % 256) as u8,
        data[1] == (value / 256) as u8,
    ensures
        buffer_word(data) == value,
{
}

/// The length requested for an I2C block read into a buffer: its length, at
/// most 32.
pub fn i2c_block_request_len(value_len: usize) -> (r: u8)
    ensures
        r == (if value_len > SMBUS_BLOCK_MAX {
            SMBUS_BLOCK_MAX as u8
        } else {
            value_len as u8
        }),
{
    if value_len > SMBUS_BLOCK_MAX {
        SMBUS_BLOCK_MAX as u8
    } else {
        value_len as u8
    }
}

/// The flags of the write segment of a combined write/read transfer.
pub fn write_segment_flags(addr_10bit: bool) -> (r: u16)
    ensures
        r == (if addr_10bit {
            RDWR_FLAG_TEN
        } else {
            0
        }),
{
    if addr_10bit {
        RDWR_FLAG_TEN
    } else {
        0
    }
}

/// The flags of the read segment of a combined write/read transfer.
pub fn read_segment_flags(addr_10bit: bool) -> (r: u16)
    ensures
        r == (if addr_10bit {
            RDWR_FLAG_RD | RDWR_FLAG_TEN
        } else {
            RDWR_FLAG_RD
        }),
{
    if addr_10bit {
        RDWR_FLAG_RD | RDWR_FLAG_TEN
    } else {
        RDWR_FLAG_RD
    }
}

/// Whether a combined write/read transfer is sent: zero-length buffers are
/// skipped, as they upset the driver.
pub fn write_read_needed(write_len: usize, read_len: usize) -> (r: bool)
    ensures
        r == (write_len > 0 && read_len > 0),
{
    write_len > 0 && read_len > 0
}

} // verus!
