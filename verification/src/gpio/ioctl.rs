//! The data structures of the Linux GPIO character device interface, and the
//! decoding of what the kernel reports through them.
use vstd::prelude::*;
use vstd::utf8::*;
use vstd::string::StringExecFns;
use crate::bytes::{bytes_eq, find_byte, first_index, str_from_utf8};
use crate::gpio::{Level, Trigger};

verus! {

/// Maximum length of a chip or line name.
pub const NAME_BUFSIZE: usize = 32;
/// Maximum length of a consumer label.
pub const LABEL_BUFSIZE: usize = 32;
/// Maximum number of configuration attributes of a line.
pub const LINE_NUM_ATTRS_MAX: usize = 10;

/// Line flag bit `used`.
pub const LINE_FLAG_USED: u64 = 0x01;
/// Line flag bit `active_low`.
pub const LINE_FLAG_ACTIVE_LOW: u64 = 0x02;
/// Line flag bit `input`.
pub const LINE_FLAG_INPUT: u64 = 0x04;
/// Line flag bit `output`.
pub const LINE_FLAG_OUTPUT: u64 = 0x08;
/// Line flag bit `edge_rising`.
pub const LINE_FLAG_EDGE_RISING: u64 = 0x10;
/// Line flag bit `edge_falling`.
pub const LINE_FLAG_EDGE_FALLING: u64 = 0x20;
/// Line flag bit `open_drain`.
pub const LINE_FLAG_OPEN_DRAIN: u64 = 0x40;
/// Line flag bit `open_source`.
pub const LINE_FLAG_OPEN_SOURCE: u64 = 0x80;
/// Line flag bit `bias_pull_up`.
pub const LINE_FLAG_BIAS_PULL_UP: u64 = 0x1000;
/// Line flag bit `bias_pull_down`.
pub const LINE_FLAG_BIAS_PULL_DOWN: u64 = 0x2000;
/// Line flag bit `bias_disabled`.
pub const LINE_FLAG_BIAS_DISABLED: u64 = 0x4000;
/// Line flag bit `event_clock_realtime`.
pub const LINE_FLAG_EVENT_CLOCK_REALTIME: u64 = 0x8000;
/// Line flag bit `event_clock_hte`.
pub const LINE_FLAG_EVENT_CLOCK_HTE: u64 = 0x100000;

/// Event id of a rising edge.
pub const EVENT_TYPE_RISING_EDGE: u32 = 0x01;
/// Event id of a falling edge.
pub const EVENT_TYPE_FALLING_EDGE: u32 = 0x02;

/// The flags of a GPIO line.
#[derive(Debug, Copy, Clone, PartialEq, Eq, Structural)]
pub struct LineFlags {
    flags: u64,
}

/// The names of the flags that are set, in the order the flags are listed.
pub open spec fn flag_names(flags: u64) -> Seq<&'static str> {
    let s = Seq::<&'static str>::empty();
    let s = if flags & LINE_FLAG_USED > 0 { s.push("used") } else { s };
    let s = if flags & LINE_FLAG_ACTIVE_LOW > 0 { s.push("active_low") } else { s };
    let s = if flags & LINE_FLAG_INPUT > 0 { s.push("input") } else { s };
    let s = if flags & LINE_FLAG_OUTPUT > 0 { s.push("output") } else { s };
    let s = if flags & LINE_FLAG_EDGE_RISING > 0 { s.push("edge_rising") } else { s };
    let s = if flags & LINE_FLAG_EDGE_FALLING > 0 { s.push("edge_falling") } else { s };
    let s = if flags & LINE_FLAG_OPEN_DRAIN > 0 { s.push("open_drain") } else { s };
    let s = if flags & LINE_FLAG_OPEN_SOURCE > 0 { s.push("open_source") } else { s };
    let s = if flags & LINE_FLAG_BIAS_PULL_UP > 0 { s.push("bias_pull_up") } else { s };
    let s = if flags & LINE_FLAG_BIAS_PULL_DOWN > 0 { s.push("bias_pull_down") } else { s };
    let s = if flags & LINE_FLAG_EDGE_FALLING > 0 { s.push("bias_disabled") } else { s };
    let s = if flags & LINE_FLAG_EVENT_CLOCK_REALTIME > 0 { s.push("event_clock_realtime") } else { s };
    let s = if flags & LINE_FLAG_EVENT_CLOCK_HTE > 0 { s.push("event_clock_hte") } else { s };
    s
}

impl LineFlags {
    /// The raw flag bits.
    pub closed spec fn bits(self) -> u64 {
        self.flags
    }

    /// Flags with the given bits.
    pub fn new(flags: u64) -> (r: LineFlags)
        ensures
            r.bits() == flags,
    {
        LineFlags { flags }
    }

    /// The line is in use by another consumer or the kernel.
    pub fn used(&self) -> (r: bool)
        ensures
            r == (self.bits() & LINE_FLAG_USED > 0),
    {
        (self.flags & LINE_FLAG_USED) > 0
    }

    /// The line's active state is physical low.
    pub fn active_low(&self) -> (r: bool)
        ensures
            r == (self.bits() & LINE_FLAG_ACTIVE_LOW > 0),
    {
        (self.flags & LINE_FLAG_ACTIVE_LOW) > 0
    }

    /// The line is an input.
    pub fn input(&self) -> (r: bool)
        ensures
            r == (self.bits() & LINE_FLAG_INPUT > 0),
    {
        (self.flags & LINE_FLAG_INPUT) > 0
    }

    /// The line is an output.
    pub fn output(&self) -> (r: bool)
        ensures
            r == (self.bits() & LINE_FLAG_OUTPUT > 0),
    {
        (self.flags & LINE_FLAG_OUTPUT) > 0
    }

    /// Rising edges of the line are detected.
    pub fn edge_rising(&self) -> (r: bool)
        ensures
            r == (self.bits() & LINE_FLAG_EDGE_RISING > 0),
    {
        (self.flags & LINE_FLAG_EDGE_RISING) > 0
    }

    /// Falling edges of the line are detected.
    pub fn edge_falling(&self) -> (r: bool)
        ensures
            r == (self.bits() & LINE_FLAG_EDGE_FALLING > 0),
    {
        (self.flags & LINE_FLAG_EDGE_FALLING) > 0
    }

    /// The line is an open drain output.
    pub fn open_drain(&self) -> (r: bool)
        ensures
            r == (self.bits() & LINE_FLAG_OPEN_DRAIN > 0),
    {
        (self.flags & LINE_FLAG_OPEN_DRAIN) > 0
    }

    /// The line is an open source output.
    pub fn open_source(&self) -> (r: bool)
        ensures
            r == (self.bits() & LINE_FLAG_OPEN_SOURCE > 0),
    {
        (self.flags & LINE_FLAG_OPEN_SOURCE) > 0
    }

    /// The line's pull-up bias is enabled.
    pub fn bias_pull_up(&self) -> (r: bool)
        ensures
            r == (self.bits() & LINE_FLAG_BIAS_PULL_UP > 0),
    {
        (self.flags & LINE_FLAG_BIAS_PULL_UP) > 0
    }

    /// The line's pull-down bias is enabled.
    pub fn bias_pull_down(&self) -> (r: bool)
        ensures
            r == (self.bits() & LINE_FLAG_BIAS_PULL_DOWN > 0),
    {
        (self.flags & LINE_FLAG_BIAS_PULL_DOWN) > 0
    }

    /// Reported under the bias-disabled name, this tests the falling-edge
    /// flag bit, not `LINE_FLAG_BIAS_DISABLED`.
    pub fn bias_disabled(&self) -> (r: bool)
        ensures
            r == (self.bits() & LINE_FLAG_EDGE_FALLING > 0),
    {
        (self.flags & LINE_FLAG_EDGE_FALLING) > 0
    }

    /// Events of the line are timestamped with the realtime clock.
    pub fn event_clock_realtime(&self) -> (r: bool)
        ensures
            r == (self.bits() & LINE_FLAG_EVENT_CLOCK_REALTIME > 0),
    {
        (self.flags & LINE_FLAG_EVENT_CLOCK_REALTIME) > 0
    }

    /// Events of the line are timestamped by the hardware timestamp engine.
    pub fn event_clock_hte(&self) -> (r: bool)
        ensures
            r == (self.bits() & LINE_FLAG_EVENT_CLOCK_HTE > 0),
    {
        (self.flags & LINE_FLAG_EVENT_CLOCK_HTE) > 0
    }

    /// The names of the flags that are set, separated by spaces when shown.
    pub fn names(&self) -> (r: Vec<&'static str>)
        ensures
            r@ == flag_names(self.bits()),
    {
        let mut names: Vec<&'static str> = Vec::new();
        if self.used() {
            names.push("used");
        }
        if self.active_low() {
            names.push("active_low");
        }
        if self.input() {
            names.push("input");
        }
        if self.output() {
            names.push("output");
        }
        if self.edge_rising() {
            names.push("edge_rising");
        }
        if self.edge_falling() {
            names.push("edge_falling");
        }
        if self.open_drain() {
            names.push("open_drain");
        }
        if self.open_source() {
            names.push("open_source");
        }
        if self.bias_pull_up() {
            names.push("bias_pull_up");
        }
        if self.bias_pull_down() {
            names.push("bias_pull_down");
        }
        if self.bias_disabled() {
            names.push("bias_disabled");
        }
        if self.event_clock_realtime() {
            names.push("event_clock_realtime");
        }
        if self.event_clock_hte() {
            names.push("event_clock_hte");
        }
        names
    }

    /// The names of the flags that are set, separated by single spaces.
    pub fn to_string(&self) -> (r: String)
        ensures
            r@ == joined_names(flag_names(self.bits())),
    {
        let names = self.names();
        let mut out = String::new();
        let mut i: usize = 0;
        while i < names.len()
            invariant
                i <= names@.len(),
                names@ == flag_names(self.bits()),
                out@ == joined_names(names@.take(i as int)),
            decreases names.len() - i,
        {
            proof {
                reveal_strlit(" ");
                assert(names@.take(i + 1).drop_last() =~= names@.take(i as int));
                assert(names@.take(i + 1).last() == names@[i as int]);
            }
            if i > 0 {
                out.append(" ");
            }
            out.append(names[i]);
            i += 1;
        }
        assert(names@.take(names@.len() as int) =~= names@);
        out
    }
}

/// Names separated by single spaces.
pub open spec fn joined_names(names: Seq<&'static str>) -> Seq<char>
    decreases names.len(),
{
    if names.len() == 0 {
        seq![]
    } else if names.len() == 1 {
        names[0]@
    } else {
        joined_names(names.drop_last()) + seq![' '] + names.last()@
    }
}

/// A configuration attribute of a line.
#[derive(Debug, Copy, Clone, PartialEq, Eq, Structural)]
pub struct LineAttribute {
    pub id: u32,
    pub padding: u32,
    pub values: u64,
}

impl LineAttribute {
    /// An empty attribute.
    pub fn new() -> (r: LineAttribute)
        ensures
            r == (LineAttribute { id: 0, padding: 0, values: 0 }),
    {
        LineAttribute { id: 0, padding: 0, values: 0 }
    }
}

/// Information about a GPIO chip.
#[derive(Debug, Copy, Clone)]
pub struct ChipInfo {
    pub name: [u8; 32],
    pub label: [u8; 32],
    pub lines: u32,
}

/// Driver labels of the Raspberry Pi's GPIO chips, NUL included.
pub open spec fn driver_labels() -> Seq<Seq<u8>> {
    seq![
        seq![112u8, 105, 110, 99, 116, 114, 108, 45, 98, 99, 109, 50, 56, 51, 53, 0],  // "pinctrl-bcm2835\0"
        seq![112u8, 105, 110, 99, 116, 114, 108, 45, 98, 99, 109, 50, 55, 49, 49, 0],  // "pinctrl-bcm2711\0"
        seq![112u8, 105, 110, 99, 116, 114, 108, 45, 114, 112, 49, 0],  // "pinctrl-rp1\0"
    ]
}

impl ChipInfo {
    /// Whether the chip is driven by one of the Raspberry Pi's GPIO drivers:
    /// its label starts with a driver label, terminating NUL included.
    pub fn is_raspberry_pi_chip(&self) -> (r: bool)
        ensures
            r == (exists|k: int|
                0 <= k < driver_labels().len() && #[trigger] self.label@.subrange(
                    0,
                    driver_labels()[k].len() as int,
                ) == driver_labels()[k]),
    {
        let bcm2835: [u8; 16] = [112u8, 105, 110, 99, 116, 114, 108, 45, 98, 99, 109, 50, 56, 51, 53, 0];
        let bcm2711: [u8; 16] = [112u8, 105, 110, 99, 116, 114, 108, 45, 98, 99, 109, 50, 55, 49, 49, 0];
        let rp1: [u8; 12] = [112u8, 105, 110, 99, 116, 114, 108, 45, 114, 112, 49, 0];
        let label: &[u8] = &self.label;
        let a = bytes_eq(&label[0..16], &bcm2835);
        let b = bytes_eq(&label[0..16], &bcm2711);
        let c = bytes_eq(&label[0..12], &rp1);
        proof {
            assert(driver_labels()[0] == bcm2835@);
            assert(driver_labels()[1] == bcm2711@);
            assert(driver_labels()[2] == rp1@);
            if a {
                assert(self.label@.subrange(0, driver_labels()[0].len() as int) == driver_labels()[0]);
            }
            if b {
                assert(self.label@.subrange(0, driver_labels()[1].len() as int) == driver_labels()[1]);
            }
            if c {
                assert(self.label@.subrange(0, driver_labels()[2].len() as int) == driver_labels()[2]);
            }
        }
        a || b || c
    }
}

/// A chip label names one of the Raspberry Pi's GPIO drivers exactly when it
/// starts with "pinctrl-bcm2835\0" (Raspberry Pi 0-3), "pinctrl-bcm2711\0"
/// (Raspberry Pi 4) or "pinctrl-rp1\0" (Raspberry Pi 5).
pub proof fn lemma_raspberry_pi_labels(label: Seq<u8>)
    requires
        label.len() >= 16,
    ensures
        (exists|k: int|
            0 <= k < driver_labels().len() && #[trigger] label.subrange(
                0,
                driver_labels()[k].len() as int,
            ) == driver_labels()[k]) <==> ({
            // "pinctrl-bcm2835\0"
            ||| label.subrange(0, 16) == seq![112u8, 105, 110, 99, 116, 114, 108, 45, 98, 99, 109, 50, 56, 51, 53, 0]
            // "pinctrl-bcm2711\0"
            ||| label.subrange(0, 16) == seq![112u8, 105, 110, 99, 116, 114, 108, 45, 98, 99, 109, 50, 55, 49, 49, 0]
            // "pinctrl-rp1\0"
            ||| label.subrange(0, 12) == seq![112u8, 105, 110, 99, 116, 114, 108, 45, 114, 112, 49, 0]
        }),
{
    let l0 = seq![112u8, 105, 110, 99, 116, 114, 108, 45, 98, 99, 109, 50, 56, 51, 53, 0];
    let l1 = seq![112u8, 105, 110, 99, 116, 114, 108, 45, 98, 99, 109, 50, 55, 49, 49, 0];
    let l2 = seq![112u8, 105, 110, 99, 116, 114, 108, 45, 114, 112, 49, 0];
    assert(driver_labels().len() == 3);
    assert(driver_labels()[0] == l0);
    assert(driver_labels()[1] == l1);
    assert(driver_labels()[2] == l2);
    assert(l0.len() == 16 && l1.len() == 16 && l2.len() == 12);
    if label.subrange(0, 16) == l0 {
        assert(label.subrange(0, driver_labels()[0].len() as int) == driver_labels()[0]);
    }
    if label.subrange(0, 16) == l1 {
        assert(label.subrange(0, driver_labels()[1].len() as int) == driver_labels()[1]);
    }
    if label.subrange(0, 12) == l2 {
        assert(label.subrange(0, driver_labels()[2].len() as int) == driver_labels()[2]);
    }
}

/// Information about a GPIO line.
#[derive(Debug, Copy, Clone)]
pub struct LineInfo {
    pub name: [u8; 32],
    pub consumer: [u8; 32],
    pub offset: u32,
    pub num_attrs: u32,
    pub flags: u64,
    pub attrs: [LineAttribute; 10],
    pub padding: [u32; 4],
}

impl LineInfo {
    /// The line's flags.
    pub fn flags(&self) -> (r: LineFlags)
        ensures
            r.bits() == self.flags,
    {
        LineFlags::new(self.flags)
    }
}

/// A change of a line's information, as the kernel reports it.
#[derive(Debug, Copy, Clone)]
pub struct LineInfoChanged {
    pub info: LineInfo,
    pub timestamp_ns: u64,
    pub event_type: u32,
    pub padding: [u32; 5],
}

/// A configuration attribute and the lines it applies to.
#[derive(Debug, Copy, Clone, PartialEq, Eq, Structural)]
pub struct LineConfigAttribute {
    pub attr: LineAttribute,
    pub mask: u64,
}

/// The configuration of requested lines.
#[derive(Debug, Copy, Clone)]
pub struct LineConfig {
    pub flags: u64,
    pub num_attrs: u32,
    pub padding: [u32; 5],
    pub attrs: [LineConfigAttribute; 10],
}

/// Line values, as bits selected by a mask.
#[derive(Debug, Copy, Clone, PartialEq, Eq, Structural)]
pub struct LineValues {
    pub bits: u64,
    pub mask: u64,
}

impl LineValues {
    /// Values with the given bits and mask.
    pub fn new(bits: u64, mask: u64) -> (r: LineValues)
        ensures
            r == (LineValues { bits, mask }),
    {
        LineValues { bits, mask }
    }
}

/// An edge event of a line, as the kernel reports it.
#[derive(Debug, Copy, Clone)]
pub struct LineEvent {
    pub timestamp_ns: u64,
    pub id: u32,
    pub offset: u32,
    pub seqno: u32,
    pub line_seqno: u32,
    pub padding: [u32; 6],
}

/// The raw event read from an event request's descriptor.
#[derive(Debug, Copy, Clone, PartialEq, Eq, Structural)]
pub struct EventData {
    pub timestamp: u64,
    pub id: u32,
}

/// An interrupt trigger event.
#[derive(Debug, Copy, Clone, PartialEq, Eq, Structural)]
pub struct Event {
    trigger: Trigger,
    timestamp_ns: u64,
}

/// Whether a raw event id is one of the two edge events.
pub open spec fn edge_event_id(id: u32) -> bool {
    id == EVENT_TYPE_RISING_EDGE || id == EVENT_TYPE_FALLING_EDGE
}

impl Event {
    /// The trigger of the event.
    pub closed spec fn trigger_spec(self) -> Trigger {
        self.trigger
    }

    /// The timestamp of the event, in nanoseconds.
    pub closed spec fn timestamp_spec(self) -> u64 {
        self.timestamp_ns
    }

    /// Decodes a raw event. The kernel only reports the two edge events.
    pub fn from_event_data(event_data: EventData) -> (r: Event)
        requires
            edge_event_id(event_data.id),
        ensures
            r.trigger_spec() == (if event_data.id == EVENT_TYPE_RISING_EDGE {
                Trigger::RisingEdge
            } else {
                Trigger::FallingEdge
            }),
            r.timestamp_spec() == event_data.timestamp,
    {
        let trigger = if event_data.id == EVENT_TYPE_RISING_EDGE {
            Trigger::RisingEdge
        } else {
            Trigger::FallingEdge
        };
        Event { trigger, timestamp_ns: event_data.timestamp }
    }

    /// Returns the trigger of the event.
    pub fn trigger(&self) -> (r: Trigger)
        ensures
            r == self.trigger_spec(),
    {
        self.trigger
    }

    /// Returns the timestamp of the event, in nanoseconds.
    pub fn timestamp_ns(&self) -> (r: u64)
        ensures
            r == self.timestamp_spec(),
    {
        self.timestamp_ns
    }

    /// The level the event leaves the pin at: high after a rising edge, low
    /// after a falling edge.
    pub fn level(&self) -> (r: Level)
        requires
            self.trigger_spec() is RisingEdge || self.trigger_spec() is FallingEdge,
        ensures
            r == (if self.trigger_spec() is RisingEdge {
                Level::High
            } else {
                Level::Low
            }),
    {
        match self.trigger {
            Trigger::RisingEdge => Level::High,
            _ => Level::Low,
        }
    }
}

/// The text of a C-style NUL-terminated buffer: the bytes before the first
/// NUL, or all of them; a buffer whose text isn't valid UTF-8 gives an empty
/// string.
pub open spec fn cbuf_text(buf: Seq<u8>) -> Seq<char> {
    let text = buf.subrange(0, first_index(buf, 0));
    if valid_utf8(text) {
        decode_utf8(text)
    } else {
        seq![]
    }
}

/// Converts a C-style NUL-terminated buffer to a string.
pub fn cbuf_to_string(buf: &[u8]) -> (r: String)
    ensures
        r@ == cbuf_text(buf@),
{
    assert(buf@.subrange(0, buf@.len() as int) =~= buf@);
    let end = find_byte(buf, 0, 0);
    match str_from_utf8(&buf[0..end]) {
        Some(s) => s.to_owned(),
        None => String::new(),
    }
}

} // verus!
