//! PWM peripheral: channels, polarity, and the values exchanged with the
//! sysfs PWM interface.
//!
//! The caller reads and writes the sysfs attribute files of the channel; the
//! functions here convert durations to what is written, decode what is read,
//! and decide the order of the writes.
use vstd::prelude::*;
use crate::system::{pwm_chip_of, DeviceInfo, Error as SystemError};

verus! {

/// Errors that can occur when accessing the PWM peripheral.
#[derive(Debug)]
pub enum Error {
    /// I/O error.
    Io(std::io::Error),
    /// The Raspberry Pi model can't be identified.
    UnknownModel,
    /// The channel number is out of range.
    InvalidChannel,
}

/// PWM channels.
#[derive(Debug, Copy, Clone, PartialEq, Eq, Structural)]
pub enum Channel {
    Pwm0,
    Pwm1,
    Pwm2,
    Pwm3,
}

/// Output polarities.
#[derive(Debug, Copy, Clone, PartialEq, Eq, Structural)]
pub enum Polarity {
    Normal,
    Inverse,
}

/// The channel with a number, if there is one.
pub open spec fn channel_of(value: u8) -> Result<Channel, Error> {
    if value == 0 {
        Ok(Channel::Pwm0)
    } else if value == 1 {
        Ok(Channel::Pwm1)
    } else if value == 2 {
        Ok(Channel::Pwm2)
    } else if value == 3 {
        Ok(Channel::Pwm3)
    } else {
        Err(Error::InvalidChannel)
    }
}

/// The number of a channel.
pub open spec fn channel_index(channel: Channel) -> u8 {
    match channel {
        Channel::Pwm0 => 0,
        Channel::Pwm1 => 1,
        Channel::Pwm2 => 2,
        Channel::Pwm3 => 3,
    }
}

impl TryFrom<u8> for Channel {
    type Error = Error;

    fn try_from(value: u8) -> (r: Result<Channel, Error>) {
        match value {
            0 => Ok(Channel::Pwm0),
            1 => Ok(Channel::Pwm1),
            2 => Ok(Channel::Pwm2),
            3 => Ok(Channel::Pwm3),
            _ => Err(Error::InvalidChannel),
        }
    }
}

impl vstd::std_specs::convert::TryFromSpecImpl<u8> for Channel {
    open spec fn obeys_try_from_spec() -> bool {
        true
    }

    open spec fn try_from_spec(v: u8) -> Result<Channel, Error> {
        channel_of(v)
    }
}

impl Channel {
    /// The channel's number within its PWM chip.
    pub fn index(self) -> (r: u8)
        ensures
            r == channel_index(self),
    {
        match self {
            Channel::Pwm0 => 0,
            Channel::Pwm1 => 1,
            Channel::Pwm2 => 2,
            Channel::Pwm3 => 3,
        }
    }
}

/// Every channel number converts back to its channel.
pub proof fn lemma_channel_roundtrip(channel: Channel)
    ensures
        channel_of(channel_index(channel)) == Ok::<Channel, Error>(channel),
{
}

/// Channel PWMn has number n, as in the sysfs directory `pwmN`; the numbers
/// 0 to 3 name the channels and every other number is refused.
pub proof fn lemma_channel_numbers(value: u8)
    ensures
        channel_index(Channel::Pwm0) == 0,
        channel_index(Channel::Pwm1) == 1,
        channel_index(Channel::Pwm2) == 2,
        channel_index(Channel::Pwm3) == 3,
        value <= 3 ==> (channel_of(value) matches Ok(c) && channel_index(c) == value),
        value > 3 ==> channel_of(value) == Err::<Channel, Error>(Error::InvalidChannel),
{
}

/// Nanoseconds in a second.
pub const NANOS_PER_SEC: u64 = 1_000_000_000;

/// The number of nanoseconds of a duration of `secs` seconds and
/// `subsec_nanos` nanoseconds, saturating at `u64::MAX`.
pub open spec fn nanos_of(secs: u64, subsec_nanos: u32) -> u64 {
    if secs * NANOS_PER_SEC + subsec_nanos > u64::MAX {
        u64::MAX
    } else {
        (secs * NANOS_PER_SEC + subsec_nanos) as u64
    }
}

/// The nanoseconds written to sysfs for a duration of `secs` seconds and
/// `subsec_nanos` nanoseconds, saturating at `u64::MAX`.
pub fn duration_nanos(secs: u64, subsec_nanos: u32) -> (r: u64)
    ensures
        r == nanos_of(secs, subsec_nanos),
{
    let whole = match secs.checked_mul(NANOS_PER_SEC) {
        Some(w) => w,
        None => u64::MAX,
    };
    match (subsec_nanos as u64).checked_add(whole) {
        Some(n) => n,
        None => u64::MAX,
    }
}

/// Whether a character is whitespace: it has the Unicode White_Space
/// property.
pub open spec fn is_space(c: char) -> bool {
    let v = c as u32;
    (0x9 <= v <= 0xD) || v == 0x20 || v == 0x85 || v == 0xA0 || v == 0x1680 || (0x2000 <= v
        <= 0x200A) || v == 0x2028 || v == 0x2029 || v == 0x202F || v == 0x205F || v == 0x3000
}

/// Whether a character is whitespace.
pub fn char_is_space(c: char) -> (r: bool)
    ensures
        r == is_space(c),
{
    let v = c as u32;
    (0x9 <= v && v <= 0xD) || v == 0x20 || v == 0x85 || v == 0xA0 || v == 0x1680 || (0x2000 <= v
        && v <= 0x200A) || v == 0x2028 || v == 0x2029 || v == 0x202F || v == 0x205F || v == 0x3000
}

/// The number of leading whitespace characters.
pub open spec fn leading_space(s: Seq<char>) -> int
    decreases s.len(),
{
    if s.len() > 0 && is_space(s[0]) {
        1 + leading_space(s.drop_first())
    } else {
        0
    }
}

/// The number of trailing whitespace characters.
pub open spec fn trailing_space(s: Seq<char>) -> int
    decreases s.len(),
{
    if s.len() > 0 && is_space(s.last()) {
        1 + trailing_space(s.drop_last())
    } else {
        0
    }
}

/// Text without leading and trailing whitespace.
pub open spec fn trimmed(s: Seq<char>) -> Seq<char> {
    let t = s.subrange(leading_space(s), s.len() as int);
    t.subrange(0, t.len() - trailing_space(t))
}

/// The value of a sequence of decimal digits.
pub open spec fn digits_value(d: Seq<char>) -> int
    decreases d.len(),
{
    if d.len() == 0 {
        0
    } else {
        digits_value(d.drop_last()) * 10 + (d.last() as int - '0' as int)
    }
}

/// Whether every character is a decimal digit.
pub open spec fn all_digits(d: Seq<char>) -> bool {
    forall|k: int| 0 <= k < d.len() ==> '0' <= #[trigger] d[k] <= '9'
}

/// The unsigned number a text holds, as `str::parse::<u64>` reads it: an
/// optional `+` and at least one decimal digit, with a value that fits.
pub open spec fn parsed_u64(t: Seq<char>) -> Option<u64> {
    let d = if t.len() > 0 && t[0] == '+' {
        t.drop_first()
    } else {
        t
    };
    if d.len() > 0 && all_digits(d) && digits_value(d) <= u64::MAX {
        Some(digits_value(d) as u64)
    } else {
        None
    }
}

proof fn lemma_leading_space(s: Seq<char>, i: int)
    requires
        0 <= i <= s.len(),
        forall|k: int| 0 <= k < i ==> is_space(#[trigger] s[k]),
        i == s.len() || !is_space(s[i]),
    ensures
        leading_space(s) == i,
    decreases i,
{
    if i > 0 {
        let t = s.drop_first();
        assert forall|k: int| 0 <= k < i - 1 implies is_space(#[trigger] t[k]) by {
            assert(t[k] == s[k + 1]);
        }
        if i < s.len() {
            assert(t[i - 1] == s[i]);
        }
        lemma_leading_space(t, i - 1);
    }
}

proof fn lemma_trailing_space(s: Seq<char>, j: int)
    requires
        0 <= j <= s.len(),
        forall|k: int| j <= k < s.len() ==> is_space(#[trigger] s[k]),
        j == 0 || !is_space(s[j - 1]),
    ensures
        trailing_space(s) == s.len() - j,
    decreases s.len() - j,
{
    if j < s.len() {
        let t = s.drop_last();
        assert(is_space(s.last()));
        assert forall|k: int| j <= k < t.len() implies is_space(#[trigger] t[k]) by {
            assert(t[k] == s[k]);
        }
        if j > 0 {
            assert(t[j - 1] == s[j - 1]);
        }
        lemma_trailing_space(t, j);
    }
}

proof fn lemma_digits_value_step(d: Seq<char>, n: int)
    requires
        0 <= n < d.len(),
    ensures
        digits_value(d.subrange(0, n + 1)) == digits_value(d.subrange(0, n)) * 10 + (d[n] as int
            - '0' as int),
{
    assert(d.subrange(0, n + 1).drop_last() =~= d.subrange(0, n));
}

proof fn lemma_digits_value_nonneg(d: Seq<char>)
    requires
        all_digits(d),
    ensures
        digits_value(d) >= 0,
    decreases d.len(),
{
    if d.len() > 0 {
        assert(all_digits(d.drop_last())) by {
            assert forall|k: int| 0 <= k < d.drop_last().len() implies '0' <= #[trigger] d.drop_last()[k]
                <= '9' by {
                assert(d.drop_last()[k] == d[k]);
            }
        }
        lemma_digits_value_nonneg(d.drop_last());
    }
}

proof fn lemma_digits_value_monotone(d: Seq<char>, n: int)
    requires
        all_digits(d),
        0 <= n <= d.len(),
    ensures
        digits_value(d.subrange(0, n)) <= digits_value(d),
    decreases d.len() - n,
{
    if n < d.len() {
        lemma_digits_value_monotone(d, n + 1);
        lemma_digits_value_step(d, n);
        assert(all_digits(d.subrange(0, n))) by {
            assert forall|k: int| 0 <= k < n implies '0' <= #[trigger] d.subrange(0, n)[k] <= '9' by {
                assert(d.subrange(0, n)[k] == d[k]);
            }
        }
        lemma_digits_value_nonneg(d.subrange(0, n));
    } else {
        assert(d.subrange(0, n) =~= d);
    }
}

/// The bounds of a text's content without surrounding whitespace.
fn trim_bounds(text: &str) -> (r: (usize, usize))
    ensures
        r.0 <= r.1 <= text@.len(),
        text@.subrange(r.0 as int, r.1 as int) == trimmed(text@),
{
    let len = text.unicode_len();
    let mut i: usize = 0;
    while i < len && char_is_space(text.get_char(i))
        invariant
            len == text@.len(),
            i <= len,
            forall|k: int| 0 <= k < i ==> is_space(#[trigger] text@[k]),
        decreases len - i,
    {
        i += 1;
    }
    proof {
        lemma_leading_space(text@, i as int);
    }
    let mut j: usize = len;
    while j > i && char_is_space(text.get_char(j - 1))
        invariant
            len == text@.len(),
            i <= j <= len,
            forall|k: int| j <= k < len ==> is_space(#[trigger] text@[k]),
        decreases j,
    {
        j -= 1;
    }
    proof {
        let t = text@.subrange(i as int, len as int);
        assert forall|k: int| j - i <= k < t.len() implies is_space(#[trigger] t[k]) by {
            assert(t[k] == text@[i + k]);
        }
        if j > i {
            assert(t[j - i - 1] == text@[j - 1]);
        }
        lemma_trailing_space(t, j - i);
        assert(t.subrange(0, t.len() - trailing_space(t)) =~= text@.subrange(i as int, j as int));
    }
    (i, j)
}

/// The unsigned number sysfs text holds, whitespace around it ignored; text
/// that holds no such number reads as 0.
pub fn parse_sysfs_u64(text: &str) -> (r: u64)
    ensures
        r == (match parsed_u64(trimmed(text@)) {
            Some(v) => v,
            None => 0,
        }),
{
    let (start, end) = trim_bounds(text);
    let ghost t = trimmed(text@);
    proof {
        assert(t == text@.subrange(start as int, end as int));
        assert(t.len() == end - start);
        if start < end {
            assert(t[0] == text@[start as int]);
        }
    }
    let mut i = start;
    if i < end && text.get_char(i) == '+' {
        i += 1;
    }
    let ghost d = text@.subrange(i as int, end as int);
    proof {
        if t.len() > 0 && t[0] == '+' {
            assert(t.drop_first() =~= d);
        } else {
            assert(t =~= d);
        }
        assert(parsed_u64(t) == (if d.len() > 0 && all_digits(d) && digits_value(d) <= u64::MAX {
            Some(digits_value(d) as u64)
        } else {
            None
        }));
    }
    if i == end {
        return 0;
    }
    let digits_start = i;
    let mut value: u64 = 0;
    while i < end
        invariant
            digits_start <= i <= end <= text@.len(),
            d == text@.subrange(digits_start as int, end as int),
            forall|k: int| 0 <= k < i - digits_start ==> '0' <= #[trigger] d[k] <= '9',
            value as int == digits_value(d.subrange(0, i - digits_start)),
            t == trimmed(text@),
            d.len() > 0,
            parsed_u64(t) == (if d.len() > 0 && all_digits(d) && digits_value(d) <= u64::MAX {
                Some(digits_value(d) as u64)
            } else {
                None
            }),
        decreases end - i,
    {
        let c = text.get_char(i);
        assert(c == d[i - digits_start]);
        if !('0' <= c && c <= '9') {
            assert(!all_digits(d));
            return 0;
        }
        let digit = (c as u32 - '0' as u32) as u64;
        proof {
            lemma_digits_value_step(d, i - digits_start);
        }
        match value.checked_mul(10) {
            Some(v) => match v.checked_add(digit) {
                Some(w) => {
                    value = w;
                },
                None => {
                    proof {
                        lemma_over_bound(d, i - digits_start + 1);
                    }
                    return 0;
                },
            },
            None => {
                proof {
                    lemma_over_bound(d, i - digits_start + 1);
                }
                return 0;
            },
        }
        i += 1;
    }
    assert(d.subrange(0, d.len() as int) =~= d);
    assert(all_digits(d));
    value
}

proof fn lemma_over_bound(d: Seq<char>, n: int)
    requires
        0 < n <= d.len(),
        digits_value(d.subrange(0, n)) > u64::MAX,
    ensures
        !(all_digits(d) && digits_value(d) <= u64::MAX),
{
    if all_digits(d) {
        lemma_digits_value_monotone(d, n);
    }
}

/// The polarity sysfs text names: `normal`, whitespace around it ignored, is
/// normal; anything else is inverse.
pub open spec fn polarity_of_text(t: Seq<char>) -> Polarity {
    if trimmed(t) == seq!['n', 'o', 'r', 'm', 'a', 'l'] {
        Polarity::Normal
    } else {
        Polarity::Inverse
    }
}

/// Decodes the polarity sysfs text.
pub fn parse_polarity(text: &str) -> (r: Polarity)
    ensures
        r == polarity_of_text(text@),
{
    let (start, end) = trim_bounds(text);
    let ghost sub = text@.subrange(start as int, end as int);
    assert(sub == trimmed(text@));
    if end - start != 6 {
        assert(sub.len() != seq!['n', 'o', 'r', 'm', 'a', 'l'].len());
        return Polarity::Inverse;
    }
    let normal = ['n', 'o', 'r', 'm', 'a', 'l'];
    let mut i: usize = 0;
    while i < 6
        invariant
            end - start == 6,
            start <= end <= text@.len(),
            i <= 6,
            normal@ == seq!['n', 'o', 'r', 'm', 'a', 'l'],
            forall|k: int| 0 <= k < i ==> text@[start + k] == normal@[k],
            sub == text@.subrange(start as int, end as int),
            sub == trimmed(text@),
        decreases 6 - i,
    {
        if text.get_char(start + i) != normal[i] {
            assert(sub[i as int] == text@[start + i]);
            assert(sub[i as int] != seq!['n', 'o', 'r', 'm', 'a', 'l'][i as int]);
            return Polarity::Inverse;
        }
        i += 1;
    }
    assert(text@.subrange(start as int, end as int) =~= seq!['n', 'o', 'r', 'm', 'a', 'l']);
    Polarity::Normal
}

/// Whether enable sysfs text says the channel is enabled: anything but `0`,
/// whitespace around it ignored.
pub open spec fn enabled_of_text(t: Seq<char>) -> bool {
    trimmed(t) != seq!['0']
}

/// Decodes the enable sysfs text.
pub fn parse_enabled(text: &str) -> (r: bool)
    ensures
        r == enabled_of_text(text@),
{
    let (start, end) = trim_bounds(text);
    let ghost sub = text@.subrange(start as int, end as int);
    assert(sub == trimmed(text@));
    if end - start == 1 && text.get_char(start) == '0' {
        assert(sub =~= seq!['0']);
        false
    } else {
        if end - start == 1 {
            assert(sub[0] == text@[start as int]);
            assert(sub[0] != seq!['0'][0]);
        } else {
            assert(sub.len() != seq!['0'].len());
        }
        true
    }
}

impl Polarity {
    /// The text sysfs expects for the polarity.
    pub fn sysfs_text(self) -> (r: &'static str)
        ensures
            self is Normal ==> r == "normal",
            self is Inverse ==> r == "inversed",
    {
        match self {
            Polarity::Normal => "normal",
            Polarity::Inverse => "inversed",
        }
    }
}

/// One write to a channel's sysfs attributes.
#[derive(Debug, Copy, Clone, PartialEq, Eq, Structural)]
pub enum PwmWrite {
    /// Write the pulse width (sysfs `duty_cycle`) in nanoseconds; when
    /// `ignore_error` is set, a failure is not reported.
    PulseWidth { nanos: u64, ignore_error: bool },
    /// Write the period in nanoseconds.
    Period(u64),
    /// Write the polarity.
    Polarity(Polarity),
    /// Write the enable state.
    Enable(bool),
}

/// The writes that configure a channel from scratch, in order. The pulse
/// width is zeroed first, ignoring failure, in case the new period is shorter
/// than the current pulse width; the channel is enabled last, if at all.
pub fn configure_writes(period_nanos: u64, pulse_width_nanos: u64, polarity: Polarity, enabled: bool) -> (r: Vec<PwmWrite>)
    ensures
        r@ == (if enabled {
            seq![
                PwmWrite::PulseWidth { nanos: 0, ignore_error: true },
                PwmWrite::Period(period_nanos),
                PwmWrite::PulseWidth { nanos: pulse_width_nanos, ignore_error: false },
                PwmWrite::Polarity(polarity),
                PwmWrite::Enable(true),
            ]
        } else {
            seq![
                PwmWrite::PulseWidth { nanos: 0, ignore_error: true },
                PwmWrite::Period(period_nanos),
                PwmWrite::PulseWidth { nanos: pulse_width_nanos, ignore_error: false },
                PwmWrite::Polarity(polarity),
            ]
        }),
{
    let mut writes: Vec<PwmWrite> = Vec::new();
    writes.push(PwmWrite::PulseWidth { nanos: 0, ignore_error: true });
    writes.push(PwmWrite::Period(period_nanos));
    writes.push(PwmWrite::PulseWidth { nanos: pulse_width_nanos, ignore_error: false });
    writes.push(PwmWrite::Polarity(polarity));
    if enabled {
        writes.push(PwmWrite::Enable(true));
    }
    writes
}

/// A PWM channel of a PWM chip, and whether it is disabled and unexported
/// when it goes out of scope.
#[derive(Debug, Copy, Clone, PartialEq, Eq, Structural)]
pub struct Pwm {
    chip: u8,
    channel: u8,
    reset_on_drop: bool,
}

impl Pwm {
    /// The PWM chip number.
    pub closed spec fn chip_spec(self) -> u8 {
        self.chip
    }

    /// The channel number within the chip.
    pub closed spec fn channel_spec(self) -> u8 {
        self.channel
    }

    /// Whether the channel is reset when it goes out of scope.
    pub closed spec fn reset_on_drop_spec(self) -> bool {
        self.reset_on_drop
    }

    /// The channel `index` of PWM chip `pwmchip`, reset on drop. The caller
    /// exports the channel and disables it before use.
    pub fn with_pwmchip(pwmchip: u8, index: u8) -> (r: Pwm)
        ensures
            r.chip_spec() == pwmchip,
            r.channel_spec() == index,
            r.reset_on_drop_spec(),
    {
        Pwm { chip: pwmchip, channel: index, reset_on_drop: true }
    }

    /// The channel of the PWM chip that drives the header on the identified
    /// model, given the outcome of identifying it: when identification failed,
    /// `UnknownModel`.
    pub fn new(device_info: Result<DeviceInfo, SystemError>, channel: Channel) -> (r: Result<
        Pwm,
        Error,
    >)
        ensures
            match device_info {
                Ok(info) => r matches Ok(pwm) && pwm.chip_spec() == pwm_chip_of(info.model_spec())
                    && pwm.channel_spec() == channel_index(channel) && pwm.reset_on_drop_spec(),
                Err(_) => r matches Err(Error::UnknownModel),
            },
    {
        match device_info {
            Ok(info) => Ok(Pwm::with_pwmchip(info.pwm_chip(), channel.index())),
            Err(_) => Err(Error::UnknownModel),
        }
    }

    /// Returns the PWM chip number.
    pub fn chip(&self) -> (r: u8)
        ensures
            r == self.chip_spec(),
    {
        self.chip
    }

    /// Returns the channel number within the chip.
    pub fn channel(&self) -> (r: u8)
        ensures
            r == self.channel_spec(),
    {
        self.channel
    }

    /// Returns whether the channel is disabled and unexported when it goes
    /// out of scope.
    pub fn reset_on_drop(&self) -> (r: bool)
        ensures
            r == self.reset_on_drop_spec(),
    {
        self.reset_on_drop
    }

    /// Sets whether the channel is disabled and unexported when it goes out
    /// of scope.
    pub fn set_reset_on_drop(&mut self, reset_on_drop: bool)
        ensures
            final(self).reset_on_drop_spec() == reset_on_drop,
            final(self).chip_spec() == old(self).chip_spec(),
            final(self).channel_spec() == old(self).channel_spec(),
    {
        self.reset_on_drop = reset_on_drop;
    }
}

/// The text `Channel` is shown as.
pub open spec fn channel_text(v: Channel) -> &'static str {
    match v {
        Channel::Pwm0 => "Pwm0",
        Channel::Pwm1 => "Pwm1",
        Channel::Pwm2 => "Pwm2",
        Channel::Pwm3 => "Pwm3",
    }
}

impl Channel {
    /// The text the value is shown as.
    pub fn as_str(&self) -> (r: &'static str)
        ensures
            r == channel_text(*self),
    {
        match self {
            Channel::Pwm0 => "Pwm0",
            Channel::Pwm1 => "Pwm1",
            Channel::Pwm2 => "Pwm2",
            Channel::Pwm3 => "Pwm3",
        }
    }
}

/// The text `Polarity` is shown as.
pub open spec fn polarity_text(v: Polarity) -> &'static str {
    match v {
        Polarity::Normal => "Normal",
        Polarity::Inverse => "Inverse",
    }
}

impl Polarity {
    /// The text the value is shown as.
    pub fn as_str(&self) -> (r: &'static str)
        ensures
            r == polarity_text(*self),
    {
        match self {
            Polarity::Normal => "Normal",
            Polarity::Inverse => "Inverse",
        }
    }
}

} // verus!
