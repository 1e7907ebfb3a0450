//! One part of a multi-segment SPI transfer.
use vstd::prelude::*;

verus! {

/// Part of a multi-segment transfer.
///
/// A segment either reads, writes, or does both at once; when both buffers are
/// given, only as many bytes as the shorter buffer holds are transferred. The
/// custom settings default to 0, which means the bus's own settings apply.
pub struct Segment<'a, 'b> {
    read_buffer: Option<&'a mut [u8]>,
    write_buffer: Option<&'b [u8]>,
    len: u32,
    speed_hz: u32,
    delay_usecs: u16,
    bits_per_word: u8,
    cs_change: u8,
}

/// The number of bytes a segment transfers, given the lengths of its read
/// and write buffers: the shorter one when both are given, each length taken
/// modulo 2^32 as the kernel structure holds it.
pub open spec fn transfer_len(read_len: Option<nat>, write_len: Option<nat>) -> u32 {
    match (read_len, write_len) {
        (Some(r), Some(w)) => if (w as u32) > (r as u32) {
            r as u32
        } else {
            w as u32
        },
        (Some(r), None) => r as u32,
        (None, Some(w)) => w as u32,
        (None, None) => 0,
    }
}

impl<'a, 'b> Segment<'a, 'b> {
    /// Number of bytes the segment transfers.
    pub closed spec fn len_spec(&self) -> u32 {
        self.len
    }

    /// Custom clock speed in hertz.
    pub closed spec fn speed_spec(&self) -> u32 {
        self.speed_hz
    }

    /// Custom delay in microseconds.
    pub closed spec fn delay_spec(&self) -> u16 {
        self.delay_usecs
    }

    /// Custom number of bits per word.
    pub closed spec fn bits_per_word_spec(&self) -> u8 {
        self.bits_per_word
    }

    /// Whether Slave Select changes after the segment.
    pub closed spec fn ss_change_spec(&self) -> bool {
        self.cs_change == 1
    }

    /// The bytes of the write buffer; empty without one.
    pub closed spec fn write_data(&self) -> Seq<u8> {
        match self.write_buffer {
            Some(b) => b@,
            None => seq![],
        }
    }

    /// The bytes of the read buffer; empty without one.
    pub closed spec fn read_data(&self) -> Seq<u8> {
        match self.read_buffer {
            Some(b) => b@,
            None => seq![],
        }
    }

    /// Whether the segment has a read buffer.
    pub closed spec fn reads(&self) -> bool {
        self.read_buffer is Some
    }

    /// Whether the segment has a write buffer.
    pub closed spec fn writes(&self) -> bool {
        self.write_buffer is Some
    }

    /// A segment with the given buffers and settings.
    pub fn with_settings(
        read_buffer: Option<&'a mut [u8]>,
        write_buffer: Option<&'b [u8]>,
        clock_speed: u32,
        delay: u16,
        bits_per_word: u8,
        ss_change: bool,
    ) -> (r: Segment<'a, 'b>)
        ensures
            r.len_spec() == transfer_len(
                match read_buffer {
                    Some(b) => Some(b@.len()),
                    None => None,
                },
                match write_buffer {
                    Some(b) => Some(b@.len()),
                    None => None,
                },
            ),
            r.reads() == read_buffer is Some,
            r.writes() == write_buffer is Some,
            r.read_data() == (match read_buffer {
                Some(b) => b@,
                None => seq![],
            }),
            r.write_data() == (match write_buffer {
                Some(b) => b@,
                None => seq![],
            }),
            r.speed_spec() == clock_speed,
            r.delay_spec() == delay,
            r.bits_per_word_spec() == bits_per_word,
            r.ss_change_spec() == ss_change,
    {
        let mut len: u32 = 0;
        let has_write = write_buffer.is_some();
        match &write_buffer {
            Some(buffer) => {
                len = buffer.len() as u32;
            },
            None => {},
        }
        match &read_buffer {
            Some(buffer) => {
                if len > buffer.len() as u32 || !has_write {
                    len = buffer.len() as u32;
                }
            },
            None => {},
        }
        Segment {
            read_buffer,
            write_buffer,
            len,
            speed_hz: clock_speed,
            delay_usecs: delay,
            bits_per_word,
            cs_change: if ss_change {
                1
            } else {
                0
            },
        }
    }

    /// A full-duplex segment that reads and writes at once, with the default settings.
    pub fn new(read_buffer: &'a mut [u8], write_buffer: &'b [u8]) -> (r: Segment<'a, 'b>)
        ensures
            r.len_spec() == transfer_len(Some(old(read_buffer)@.len()), Some(write_buffer@.len())),
            r.reads() && r.writes(),
            r.read_data() == old(read_buffer)@,
            r.write_data() == write_buffer@,
            r.speed_spec() == 0 && r.delay_spec() == 0 && r.bits_per_word_spec() == 0,
            !r.ss_change_spec(),
    {
        Segment::with_settings(Some(read_buffer), Some(write_buffer), 0, 0, 0, false)
    }

    /// A segment that reads into `buffer`, sending a zero byte for every byte read.
    pub fn with_read(buffer: &'a mut [u8]) -> (r: Segment<'a, 'b>)
        ensures
            r.len_spec() == old(buffer)@.len() as u32,
            r.reads() && !r.writes(),
            r.read_data() == old(buffer)@,
            r.speed_spec() == 0 && r.delay_spec() == 0 && r.bits_per_word_spec() == 0,
            !r.ss_change_spec(),
    {
        Segment::with_settings(Some(buffer), None, 0, 0, 0, false)
    }

    /// A segment that writes `buffer`, discarding what comes in.
    pub fn with_write(buffer: &'b [u8]) -> (r: Segment<'a, 'b>)
        ensures
            r.len_spec() == buffer@.len() as u32,
            !r.reads() && r.writes(),
            r.write_data() == buffer@,
            r.speed_spec() == 0 && r.delay_spec() == 0 && r.bits_per_word_spec() == 0,
            !r.ss_change_spec(),
    {
        Segment::with_settings(None, Some(buffer), 0, 0, 0, false)
    }

    /// Returns the number of bytes that will be transferred.
    pub fn len(&self) -> (r: usize)
        ensures
            r == self.len_spec(),
    {
        self.len as usize
    }

    /// Returns `true` if this segment won't transfer any bytes.
    pub fn is_empty(&self) -> (r: bool)
        ensures
            r == (self.len_spec() == 0),
    {
        self.len == 0
    }

    /// Gets the custom clock speed in hertz for this segment.
    pub fn clock_speed(&self) -> (r: u32)
        ensures
            r == self.speed_spec(),
    {
        self.speed_hz
    }

    /// Sets a custom clock speed in hertz for this segment.
    pub fn set_clock_speed(&mut self, clock_speed: u32)
        ensures
            final(self).read_data() == old(self).read_data(),
            final(self).write_data() == old(self).write_data(),
            final(self).len_spec() == old(self).len_spec(),
            final(self).speed_spec() == clock_speed,
            final(self).delay_spec() == old(self).delay_spec(),
            final(self).bits_per_word_spec() == old(self).bits_per_word_spec(),
            final(self).ss_change_spec() == old(self).ss_change_spec(),
    {
        self.speed_hz = clock_speed;
    }

    /// Gets the delay in microseconds for this segment.
    pub fn delay(&self) -> (r: u16)
        ensures
            r == self.delay_spec(),
    {
        self.delay_usecs
    }

    /// Sets a delay in microseconds at the end of this segment, before the
    /// optional Slave Select change.
    pub fn set_delay(&mut self, delay: u16)
        ensures
            final(self).read_data() == old(self).read_data(),
            final(self).write_data() == old(self).write_data(),
            final(self).len_spec() == old(self).len_spec(),
            final(self).delay_spec() == delay,
            final(self).speed_spec() == old(self).speed_spec(),
            final(self).bits_per_word_spec() == old(self).bits_per_word_spec(),
            final(self).ss_change_spec() == old(self).ss_change_spec(),
    {
        self.delay_usecs = delay;
    }

    /// Gets the number of bits per word for this segment.
    pub fn bits_per_word(&self) -> (r: u8)
        ensures
            r == self.bits_per_word_spec(),
    {
        self.bits_per_word
    }

    /// Sets the number of bits per word for this segment.
    pub fn set_bits_per_word(&mut self, bits_per_word: u8)
        ensures
            final(self).read_data() == old(self).read_data(),
            final(self).write_data() == old(self).write_data(),
            final(self).len_spec() == old(self).len_spec(),
            final(self).bits_per_word_spec() == bits_per_word,
            final(self).speed_spec() == old(self).speed_spec(),
            final(self).delay_spec() == old(self).delay_spec(),
            final(self).ss_change_spec() == old(self).ss_change_spec(),
    {
        self.bits_per_word = bits_per_word;
    }

    /// Gets the state of Slave Select change for this segment.
    pub fn ss_change(&self) -> (r: bool)
        ensures
            r == self.ss_change_spec(),
    {
        self.cs_change == 1
    }

    /// Changes Slave Select's behaviour for this segment: between segments it
    /// briefly goes inactive; after the last segment it stays active.
    pub fn set_ss_change(&mut self, ss_change: bool)
        ensures
            final(self).read_data() == old(self).read_data(),
            final(self).write_data() == old(self).write_data(),
            final(self).len_spec() == old(self).len_spec(),
            final(self).ss_change_spec() == ss_change,
            final(self).speed_spec() == old(self).speed_spec(),
            final(self).delay_spec() == old(self).delay_spec(),
            final(self).bits_per_word_spec() == old(self).bits_per_word_spec(),
    {
        self.cs_change = if ss_change {
            1
        } else {
            0
        };
    }

    /// The read buffer, for the transfer to fill.
    pub fn read_buffer_mut(&mut self) -> (r: Option<&mut [u8]>)
        ensures
            r is Some == old(self).reads(),
            r matches Some(b) ==> b@ == old(self).read_data(),
            final(self).reads() == old(self).reads(),
            final(self).write_data() == old(self).write_data(),
            final(self).writes() == old(self).writes(),
            final(self).len_spec() == old(self).len_spec(),
            final(self).speed_spec() == old(self).speed_spec(),
            final(self).delay_spec() == old(self).delay_spec(),
            final(self).bits_per_word_spec() == old(self).bits_per_word_spec(),
            final(self).ss_change_spec() == old(self).ss_change_spec(),
    {
        match &mut self.read_buffer {
            Some(buffer) => Some(&mut **buffer),
            None => None,
        }
    }

    /// The read buffer, for building the kernel's transfer structure.
    pub fn read_buffer(&self) -> (r: Option<&[u8]>)
        ensures
            r is Some == self.reads(),
            r matches Some(b) ==> b@ == self.read_data(),
    {
        match &self.read_buffer {
            Some(buffer) => Some(&**buffer),
            None => None,
        }
    }

    /// The write buffer, for building the kernel's transfer structure.
    pub fn write_buffer(&self) -> (r: Option<&[u8]>)
        ensures
            r is Some == self.writes(),
            r matches Some(b) ==> b@ == self.write_data(),
    {
        match &self.write_buffer {
            Some(buffer) => Some(*buffer),
            None => None,
        }
    }
}

/// When both buffers are given, the segment transfers as many bytes as the
/// shorter one holds.
pub proof fn lemma_transfer_len_is_shortest(read_len: nat, write_len: nat)
    requires
        read_len <= u32::MAX,
        write_len <= u32::MAX,
    ensures
        transfer_len(Some(read_len), Some(write_len)) as nat == if read_len < write_len {
            read_len
        } else {
            write_len
        },
{
}

/// The segment delay, in microseconds, that stands for a delay of `ns`
/// nanoseconds: whole microseconds, kept to the low 16 bits the field holds.
pub fn delay_us_from_ns(ns: u32) -> (r: u16)
    ensures
        r as int == (ns / 1000) % 0x1_0000,
{
    let us: u32 = ns / 1000;
    let r: u16 = (us % 0x1_0000) as u16;
    r
}

} // verus!
