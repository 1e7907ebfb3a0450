//! Timing decisions of software PWM.
//!
//! A worker thread toggles the pin: high for the pulse width (unless it is
//! zero), low for the rest of the period. Each phase sleeps while enough time
//! is left, keeping a margin that is then busy-waited, since a sleep may take
//! longer than asked. The thread performs the sleeps, clock reads and pin
//! writes; the functions here decide them.
use vstd::prelude::*;

verus! {

/// Sleep only when at least this many nanoseconds are left.
pub const SLEEP_THRESHOLD: i64 = 250_000;
/// Nanoseconds kept for busy-waiting after a sleep.
pub const BUSYWAIT_MAX: i64 = 200_000;
/// Nanoseconds of slack left for the overhead of reading the clock.
pub const BUSYWAIT_REMAINDER: i64 = 100;
/// Nanoseconds in a second.
pub const NANOS_PER_SEC: i64 = 1_000_000_000;

/// The nanoseconds of a duration of `secs` seconds and `subsec_nanos`
/// nanoseconds, when they fit in an `i64`.
pub fn duration_ns(secs: u64, subsec_nanos: u32) -> (r: i64)
    requires
        subsec_nanos < NANOS_PER_SEC,
        secs * NANOS_PER_SEC + subsec_nanos <= i64::MAX,
    ensures
        r == secs * NANOS_PER_SEC + subsec_nanos,
{
    assert(secs * NANOS_PER_SEC <= i64::MAX);
    (secs as i64) * NANOS_PER_SEC + subsec_nanos as i64
}

/// The period and pulse width of a software PWM signal, in nanoseconds.
#[derive(Debug, Copy, Clone, PartialEq, Eq, Structural)]
pub struct PwmTiming {
    pub period_ns: i64,
    pub pulse_width_ns: i64,
}

impl PwmTiming {
    /// The timing a PWM thread starts with. The pulse width is taken as
    /// given, even when it exceeds the period.
    pub fn new(period_ns: i64, pulse_width_ns: i64) -> (r: PwmTiming)
        ensures
            r == (PwmTiming { period_ns, pulse_width_ns }),
    {
        PwmTiming { period_ns, pulse_width_ns }
    }

    /// Applies a reconfiguration: the new pulse width is capped at the new
    /// period.
    pub fn reconfigure(&mut self, period_ns: i64, pulse_width_ns: i64)
        ensures
            final(self).period_ns == period_ns,
            final(self).pulse_width_ns == (if pulse_width_ns > period_ns {
                period_ns
            } else {
                pulse_width_ns
            }),
            final(self).pulse_width_ns <= final(self).period_ns,
    {
        self.period_ns = period_ns;
        self.pulse_width_ns = if pulse_width_ns > period_ns {
            period_ns
        } else {
            pulse_width_ns
        };
    }

    /// Whether the pin is driven high at the start of a period: only when
    /// the pulse width is positive.
    pub fn drives_high(&self) -> (r: bool)
        ensures
            r == (self.pulse_width_ns > 0),
    {
        self.pulse_width_ns > 0
    }
}

/// How long to sleep when `remaining_ns` nanoseconds of a phase are left:
/// the remaining time minus the busy-wait margin, or no sleep at all when too
/// little time is left.
pub fn sleep_before_busy_wait(remaining_ns: i64) -> (r: Option<i64>)
    ensures
        remaining_ns >= SLEEP_THRESHOLD ==> r == Some((remaining_ns - BUSYWAIT_MAX) as i64),
        remaining_ns < SLEEP_THRESHOLD ==> r is None,
        r matches Some(ns) ==> ns >= SLEEP_THRESHOLD - BUSYWAIT_MAX,
{
    if remaining_ns >= SLEEP_THRESHOLD {
        Some(remaining_ns - BUSYWAIT_MAX)
    } else {
        None
    }
}

/// Whether busy-waiting for a phase of `target_ns` nanoseconds that started at
/// `start_ns` is over at clock reading `now_ns`: at most the clock overhead
/// margin is left.
pub fn busy_wait_done(target_ns: i64, start_ns: i64, now_ns: i64) -> (r: bool)
    requires
        0 <= start_ns <= now_ns,
        target_ns >= 0,
    ensures
        r == (target_ns - (now_ns - start_ns) <= BUSYWAIT_REMAINDER),
{
    target_ns - (now_ns - start_ns) <= BUSYWAIT_REMAINDER
}

/// A sleep of `ns` nanoseconds as whole seconds and remaining nanoseconds.
pub fn split_sleep(ns: i64) -> (r: (i64, i64))
    requires
        ns >= 0,
    ensures
        r.0 * NANOS_PER_SEC + r.1 == ns,
        0 <= r.1 < NANOS_PER_SEC,
        r.0 == ns / NANOS_PER_SEC,
{
    (ns / NANOS_PER_SEC, ns % NANOS_PER_SEC)
}

/// A clock reading of `secs` seconds and `nsec` nanoseconds in nanoseconds.
pub fn clock_ns(secs: i64, nsec: i64) -> (r: i64)
    requires
        0 <= nsec < NANOS_PER_SEC,
        0 <= secs,
        secs * NANOS_PER_SEC + nsec <= i64::MAX,
    ensures
        r == secs * NANOS_PER_SEC + nsec,
{
    assert(secs * NANOS_PER_SEC <= i64::MAX);
    secs * NANOS_PER_SEC + nsec
}

/// Where a software PWM thread stands in its cycle.
#[derive(Debug, Copy, Clone, PartialEq, Eq, Structural)]
pub enum PwmPhase {
    /// A new period starts: the pin goes high, unless the pulse width is zero.
    Raise,
    /// The pin is high: sleep through most of the pulse.
    PulseSleep,
    /// Busy-wait for the end of the pulse, reading the clock.
    PulseWait,
    /// The pin is low: take the pending messages one by one.
    Messages,
    /// The messages are taken: a clock reading gives the time left.
    PeriodClock,
    /// Busy-wait for the end of the period, reading the clock.
    PeriodWait,
    /// The thread has been told to stop.
    Stopped,
}

/// A message to the thread.
#[derive(Debug, Copy, Clone, PartialEq, Eq, Structural)]
pub enum PwmMessage {
    /// New period and pulse width, in nanoseconds.
    Reconfigure(i64, i64),
    /// End the thread.
    Stop,
}

/// What the previous action gave.
#[derive(Debug, Copy, Clone, PartialEq, Eq, Structural)]
pub enum PwmEvent {
    /// The action is done and gave nothing.
    Done,
    /// A monotonic clock reading in nanoseconds.
    Clock(i64),
    /// The next pending message, if any.
    Message(Option<PwmMessage>),
}

/// What the thread does next.
#[derive(Debug, Copy, Clone, PartialEq, Eq, Structural)]
pub enum PwmAction {
    /// Drive the pin high.
    SetHigh,
    /// Drive the pin low.
    SetLow,
    /// Sleep this many nanoseconds.
    Sleep(i64),
    /// Read the monotonic clock.
    ReadClock,
    /// Take the next pending message without waiting.
    ReceiveMessage,
    /// End the thread.
    Exit,
}

/// The state of a software PWM thread: its timing, when the current period
/// started, and where it stands.
#[derive(Debug, Copy, Clone, PartialEq, Eq, Structural)]
pub struct PwmCycle {
    pub timing: PwmTiming,
    pub start_ns: i64,
    pub phase: PwmPhase,
}

/// A cycle state with a non-negative timing and start.
pub open spec fn cycle_wf(c: PwmCycle) -> bool {
    c.timing.period_ns >= 0 && c.timing.pulse_width_ns >= 0 && c.start_ns >= 0
}

/// An event the thread can see in a state: clock readings don't go back
/// before the period's start, and new timings are non-negative.
pub open spec fn event_ok(c: PwmCycle, e: PwmEvent) -> bool {
    match e {
        PwmEvent::Clock(now) => now >= c.start_ns,
        PwmEvent::Message(Some(PwmMessage::Reconfigure(p, w))) => p >= 0 && w >= 0,
        _ => true,
    }
}

/// The first action of the pulse once the pin is high: sleep through most of
/// the pulse, or start busy-waiting right away.
pub open spec fn pulse_start(c: PwmCycle) -> (PwmCycle, PwmAction) {
    if c.timing.pulse_width_ns >= SLEEP_THRESHOLD {
        (
            PwmCycle { phase: PwmPhase::PulseWait, ..c },
            PwmAction::Sleep((c.timing.pulse_width_ns - BUSYWAIT_MAX) as i64),
        )
    } else {
        (PwmCycle { phase: PwmPhase::PulseWait, ..c }, PwmAction::ReadClock)
    }
}

/// The first action of a period: drive the pin high when the pulse width is
/// positive, otherwise go on with the pulse.
pub open spec fn period_start(c: PwmCycle) -> (PwmCycle, PwmAction) {
    if c.timing.pulse_width_ns > 0 {
        (PwmCycle { phase: PwmPhase::PulseSleep, ..c }, PwmAction::SetHigh)
    } else {
        pulse_start(c)
    }
}

/// One step of the thread: the next state and action, given what the
/// previous action gave.
pub open spec fn cycle_step(c: PwmCycle, e: PwmEvent) -> (PwmCycle, PwmAction) {
    match c.phase {
        PwmPhase::Raise => period_start(c),
        PwmPhase::PulseSleep => pulse_start(c),
        PwmPhase::PulseWait => match e {
            PwmEvent::Clock(now) => if c.timing.pulse_width_ns - (now - c.start_ns)
                <= BUSYWAIT_REMAINDER {
                (PwmCycle { phase: PwmPhase::Messages, ..c }, PwmAction::SetLow)
            } else {
                (c, PwmAction::ReadClock)
            },
            _ => (c, PwmAction::ReadClock),
        },
        PwmPhase::Messages => match e {
            PwmEvent::Message(Some(PwmMessage::Reconfigure(p, w))) => (
                PwmCycle {
                    timing: PwmTiming {
                        period_ns: p,
                        pulse_width_ns: if w > p {
                            p
                        } else {
                            w
                        },
                    },
                    ..c
                },
                PwmAction::ReceiveMessage,
            ),
            PwmEvent::Message(Some(PwmMessage::Stop)) => (
                PwmCycle { phase: PwmPhase::Stopped, ..c },
                PwmAction::Exit,
            ),
            PwmEvent::Message(None) => (
                PwmCycle { phase: PwmPhase::PeriodClock, ..c },
                PwmAction::ReadClock,
            ),
            _ => (c, PwmAction::ReceiveMessage),
        },
        PwmPhase::PeriodClock => match e {
            PwmEvent::Clock(now) => {
                let remaining = c.timing.period_ns - (now - c.start_ns);
                if remaining >= SLEEP_THRESHOLD {
                    (
                        PwmCycle { phase: PwmPhase::PeriodWait, ..c },
                        PwmAction::Sleep((remaining - BUSYWAIT_MAX) as i64),
                    )
                } else {
                    (PwmCycle { phase: PwmPhase::PeriodWait, ..c }, PwmAction::ReadClock)
                }
            },
            _ => (c, PwmAction::ReadClock),
        },
        PwmPhase::PeriodWait => match e {
            PwmEvent::Clock(now) => if c.timing.period_ns - (now - c.start_ns)
                <= BUSYWAIT_REMAINDER {
                period_start(PwmCycle { start_ns: now, ..c })
            } else {
                (c, PwmAction::ReadClock)
            },
            _ => (c, PwmAction::ReadClock),
        },
        PwmPhase::Stopped => (c, PwmAction::Exit),
    }
}

impl PwmCycle {
    /// A thread that starts a period at clock reading `start_ns`.
    pub fn new(timing: PwmTiming, start_ns: i64) -> (r: PwmCycle)
        ensures
            r == (PwmCycle { timing, start_ns, phase: PwmPhase::Raise }),
    {
        PwmCycle { timing, start_ns, phase: PwmPhase::Raise }
    }

    fn pulse_start(&mut self) -> (r: PwmAction)
        ensures
            (*final(self), r) == pulse_start(*old(self)),
    {
        self.phase = PwmPhase::PulseWait;
        match sleep_before_busy_wait(self.timing.pulse_width_ns) {
            Some(ns) => PwmAction::Sleep(ns),
            None => PwmAction::ReadClock,
        }
    }

    fn period_start(&mut self) -> (r: PwmAction)
        ensures
            (*final(self), r) == period_start(*old(self)),
    {
        if self.timing.drives_high() {
            self.phase = PwmPhase::PulseSleep;
            PwmAction::SetHigh
        } else {
            self.pulse_start()
        }
    }

    /// Takes one step: given what the previous action gave, moves on and
    /// says what to do next.
    pub fn step(&mut self, event: PwmEvent) -> (r: PwmAction)
        requires
            cycle_wf(*old(self)),
            event_ok(*old(self), event),
        ensures
            (*final(self), r) == cycle_step(*old(self), event),
            cycle_wf(*final(self)),
    {
        match self.phase {
            PwmPhase::Raise => self.period_start(),
            PwmPhase::PulseSleep => self.pulse_start(),
            PwmPhase::PulseWait => match event {
                PwmEvent::Clock(now) => if busy_wait_done(
                    self.timing.pulse_width_ns,
                    self.start_ns,
                    now,
                ) {
                    self.phase = PwmPhase::Messages;
                    PwmAction::SetLow
                } else {
                    PwmAction::ReadClock
                },
                _ => PwmAction::ReadClock,
            },
            PwmPhase::Messages => match event {
                PwmEvent::Message(Some(PwmMessage::Reconfigure(p, w))) => {
                    self.timing.reconfigure(p, w);
                    PwmAction::ReceiveMessage
                },
                PwmEvent::Message(Some(PwmMessage::Stop)) => {
                    self.phase = PwmPhase::Stopped;
                    PwmAction::Exit
                },
                PwmEvent::Message(None) => {
                    self.phase = PwmPhase::PeriodClock;
                    PwmAction::ReadClock
                },
                _ => PwmAction::ReceiveMessage,
            },
            PwmPhase::PeriodClock => match event {
                PwmEvent::Clock(now) => {
                    let remaining = self.timing.period_ns - (now - self.start_ns);
                    self.phase = PwmPhase::PeriodWait;
                    match sleep_before_busy_wait(remaining) {
                        Some(ns) => PwmAction::Sleep(ns),
                        None => PwmAction::ReadClock,
                    }
                },
                _ => PwmAction::ReadClock,
            },
            PwmPhase::PeriodWait => match event {
                PwmEvent::Clock(now) => if busy_wait_done(self.timing.period_ns, self.start_ns, now) {
                    self.start_ns = now;
                    self.period_start()
                } else {
                    PwmAction::ReadClock
                },
                _ => PwmAction::ReadClock,
            },
            PwmPhase::Stopped => PwmAction::Exit,
        }
    }
}

/// Once told to stop, the thread only ever exits.
pub proof fn lemma_stopped_exits(c: PwmCycle, e: PwmEvent)
    requires
        c.phase == PwmPhase::Stopped,
    ensures
        cycle_step(c, e) == (c, PwmAction::Exit),
{
}

/// A reconfiguration sets the period to the one asked for and the pulse
/// width to the one asked for, capped at that period; the new timing applies
/// from the next period on: the pin stays low while the remaining messages
/// are taken, and the current period keeps its start.
pub proof fn lemma_reconfigure_caps_pulse(c: PwmCycle, p: i64, w: i64)
    requires
        c.phase == PwmPhase::Messages,
    ensures
        ({
            let (next, action) = cycle_step(c, PwmEvent::Message(Some(PwmMessage::Reconfigure(p, w))));
            &&& next.timing.period_ns == p
            &&& w <= p ==> next.timing.pulse_width_ns == w
            &&& w > p ==> next.timing.pulse_width_ns == p
            &&& next.timing.pulse_width_ns <= next.timing.period_ns
            &&& next.start_ns == c.start_ns
            &&& next.phase == PwmPhase::Messages
            &&& action == PwmAction::ReceiveMessage
        }),
{
}

/// A period starts by driving the pin high exactly when the pulse width is
/// positive; the pin goes low once the pulse width has elapsed, give or take
/// the clock overhead margin; and a new period starts, at the clock reading
/// that ended the old one, once the period has elapsed.
pub proof fn lemma_cycle_timing(c: PwmCycle, now: i64)
    ensures
        c.phase == PwmPhase::Raise ==> (cycle_step(c, PwmEvent::Done).1 == PwmAction::SetHigh
            <==> c.timing.pulse_width_ns > 0),
        c.phase == PwmPhase::PulseWait ==> (cycle_step(c, PwmEvent::Clock(now)).1
            == PwmAction::SetLow <==> now - c.start_ns >= c.timing.pulse_width_ns - 100),
        c.phase == PwmPhase::PeriodWait && now - c.start_ns >= c.timing.period_ns - 100 ==> ({
            let (next, action) = cycle_step(c, PwmEvent::Clock(now));
            &&& next.start_ns == now
            &&& next.timing == c.timing
            &&& (action == PwmAction::SetHigh <==> c.timing.pulse_width_ns > 0)
        }),
        c.phase == PwmPhase::PeriodWait && now - c.start_ns < c.timing.period_ns - 100
            ==> cycle_step(c, PwmEvent::Clock(now)) == (c, PwmAction::ReadClock),
{
}

/// Each phase sleeps through all but the busy-wait margin of the time left
/// when at least the sleep threshold is left, and reads the clock to
/// busy-wait otherwise.
pub proof fn lemma_cycle_sleeps(c: PwmCycle, now: i64)
    ensures
        c.phase == PwmPhase::PulseSleep ==> cycle_step(c, PwmEvent::Done).1 == (if c.timing.pulse_width_ns
            >= 250_000 {
            PwmAction::Sleep((c.timing.pulse_width_ns - 200_000) as i64)
        } else {
            PwmAction::ReadClock
        }),
        c.phase == PwmPhase::PeriodClock ==> ({
            let remaining = c.timing.period_ns - (now - c.start_ns);
            cycle_step(c, PwmEvent::Clock(now)).1 == (if remaining >= 250_000 {
                PwmAction::Sleep((remaining - 200_000) as i64)
            } else {
                PwmAction::ReadClock
            })
        }),
{
}

} // verus!
