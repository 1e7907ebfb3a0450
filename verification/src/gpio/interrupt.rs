//! Bookkeeping of synchronous interrupts.
//!
//! Every pin configured for a synchronous interrupt has an event request that
//! the caller registers with epoll. When a poll sees several trigger events at
//! once, only the first pin (in the order the pins were passed) is reported;
//! the others stay cached and are reported by the following polls, unless a
//! poll asks for the cache to be reset.
use vstd::prelude::*;
use crate::gpio::{Level, Trigger};

verus! {

/// The interrupt state of one pin.
#[derive(Debug, Copy, Clone, PartialEq, Eq, Structural)]
pub struct TriggerStatus {
    /// The trigger of the pin's interrupt, if one is configured.
    pub interrupt: Option<Trigger>,
    /// Whether an event was seen and not reported yet.
    pub triggered: bool,
    /// The level of the last event seen.
    pub level: Level,
}

/// What the caller does to the pin's event request after `set_interrupt`.
#[derive(Debug, Copy, Clone, PartialEq, Eq, Structural)]
pub enum InterruptAction {
    /// Nothing changes.
    Keep,
    /// Request events for the new trigger on a new descriptor, replacing the old one.
    Rearm,
    /// Request events and register the new descriptor.
    Register,
}

/// The level an edge event leaves a pin at.
pub open spec fn level_of_edge(trigger: Trigger) -> Level {
    if trigger is RisingEdge {
        Level::High
    } else {
        Level::Low
    }
}

/// The level an edge event leaves a pin at: high after a rising edge, low
/// after any other.
pub fn edge_level(edge: Trigger) -> (r: Level)
    ensures
        r == level_of_edge(edge),
{
    match edge {
        Trigger::RisingEdge => Level::High,
        _ => Level::Low,
    }
}

/// What a descriptor that epoll reported ready means to the thread of an
/// asynchronous interrupt.
#[derive(Debug, Copy, Clone, PartialEq, Eq, Structural)]
pub enum ReadySource {
    /// The stop descriptor: the owner asked the thread to end.
    Stop,
    /// The pin's event request: an edge event is read and the callback gets
    /// the level it left the pin at.
    Event,
    /// Any other descriptor, which is ignored.
    Other,
}

/// Tells which of the thread's descriptors `fd` is. The stop descriptor is
/// checked first.
pub fn ready_source(fd: i32, stop_fd: i32, event_fd: i32) -> (r: ReadySource)
    ensures
        r == (if fd == stop_fd {
            ReadySource::Stop
        } else if fd == event_fd {
            ReadySource::Event
        } else {
            ReadySource::Other
        }),
{
    if fd == stop_fd {
        ReadySource::Stop
    } else if fd == event_fd {
        ReadySource::Event
    } else {
        ReadySource::Other
    }
}

/// The epoll timeout for a poll: -1, waiting indefinitely, without a
/// timeout; otherwise the whole milliseconds of `secs` seconds and `millis`
/// milliseconds, cut to the C `int` the call takes.
pub fn poll_timeout_ms(timeout: Option<(u64, u32)>) -> (r: i32)
    requires
        timeout matches Some((secs, millis)) ==> secs * 1000 + millis <= u64::MAX,
    ensures
        r == (match timeout {
            Some((secs, millis)) => (secs * 1000 + millis) as i32,
            None => -1i32,
        }),
{
    match timeout {
        Some((secs, millis)) => {
            let total: u64 = secs * 1000 + millis as u64;
            total as i32
        },
        None => -1,
    }
}

/// The index in `pins` of the first pin with an unreported event.
pub open spec fn first_triggered(state: Seq<TriggerStatus>, pins: Seq<u8>) -> Option<int>
    decreases pins.len(),
{
    if pins.len() == 0 {
        None
    } else if state[pins[0] as int].triggered {
        Some(0)
    } else {
        match first_triggered(state, pins.drop_first()) {
            Some(k) => Some(k + 1),
            None => None,
        }
    }
}

/// The state with a pin's unreported event cleared.
pub open spec fn clear_one(state: Seq<TriggerStatus>, pin: u8) -> Seq<TriggerStatus> {
    state.update(pin as int, TriggerStatus { triggered: false, ..state[pin as int] })
}

/// The state with the unreported events of all listed pins cleared.
pub open spec fn clear_all(state: Seq<TriggerStatus>, pins: Seq<u8>) -> Seq<TriggerStatus> {
    Seq::new(
        state.len(),
        |p: int|
            if pins.contains(p as u8) && 0 <= p < 256 {
                TriggerStatus { triggered: false, ..state[p] }
            } else {
                state[p]
            },
    )
}

/// The report of taking the first unreported event of the listed pins, and
/// the state afterwards.
pub open spec fn take_triggered_spec(state: Seq<TriggerStatus>, pins: Seq<u8>) -> (Option<(int, Level)>, Seq<TriggerStatus>) {
    match first_triggered(state, pins) {
        Some(i) => (Some((i, state[pins[i] as int].level)), clear_one(state, pins[i])),
        None => (None, state),
    }
}

/// The state after an edge event is seen on a pin: recorded if the pin has an
/// interrupt configured, ignored otherwise.
pub open spec fn record_spec(state: Seq<TriggerStatus>, pin: u8, edge: Trigger) -> Seq<TriggerStatus> {
    if state[pin as int].interrupt is Some {
        state.update(
            pin as int,
            TriggerStatus { triggered: true, level: level_of_edge(edge), ..state[pin as int] },
        )
    } else {
        state
    }
}

/// The state after the edge events `events` (pin, edge) are seen, in order.
pub open spec fn record_all(state: Seq<TriggerStatus>, events: Seq<(u8, Trigger)>) -> Seq<
    TriggerStatus,
>
    decreases events.len(),
{
    if events.len() == 0 {
        state
    } else {
        let last = events.last();
        record_spec(record_all(state, events.drop_last()), last.0, last.1)
    }
}

/// Every event is an edge event of a pin with a slot in the state.
pub open spec fn events_in(events: Seq<(u8, Trigger)>, len: nat) -> bool {
    forall|k: int|
        0 <= k < events.len() ==> (events[k].0 as nat) < len && (events[k].1 is RisingEdge
            || events[k].1 is FallingEdge)
}

/// What a poll does after one wait for events.
#[derive(Debug, Copy, Clone, PartialEq, Eq, Structural)]
pub enum PollOutcome {
    /// Report the listed pin at this index, with the level of its event.
    Found(usize, Level),
    /// Report that no interrupt was triggered in time.
    TimedOut,
    /// Wait for events again.
    WaitAgain,
}

/// Synchronous interrupt state for all pins.
pub struct EventLoop {
    trigger_status: Vec<TriggerStatus>,
}

impl View for EventLoop {
    type V = Seq<TriggerStatus>;

    closed spec fn view(&self) -> Seq<TriggerStatus> {
        self.trigger_status@
    }
}

/// Whether every listed pin has a slot in the state.
pub open spec fn pins_in(pins: Seq<u8>, len: nat) -> bool {
    forall|k: int| 0 <= k < pins.len() ==> (pins[k] as nat) < len
}

impl EventLoop {
    /// State for `capacity` pins, none configured.
    pub fn new(capacity: usize) -> (r: EventLoop)
        ensures
            r@ == Seq::new(
                capacity as nat,
                |i: int| TriggerStatus { interrupt: None, triggered: false, level: Level::Low },
            ),
    {
        let mut trigger_status: Vec<TriggerStatus> = Vec::new();
        let mut i: usize = 0;
        while i < capacity
            invariant
                i <= capacity,
                trigger_status@ == Seq::new(
                    i as nat,
                    |k: int| TriggerStatus { interrupt: None, triggered: false, level: Level::Low },
                ),
            decreases capacity - i,
        {
            trigger_status.push(TriggerStatus { interrupt: None, triggered: false, level: Level::Low });
            i += 1;
            assert(trigger_status@ =~= Seq::new(
                i as nat,
                |k: int| TriggerStatus { interrupt: None, triggered: false, level: Level::Low },
            ));
        }
        EventLoop { trigger_status }
    }

    /// The interrupt state of one pin.
    pub fn status(&self, pin: u8) -> (r: TriggerStatus)
        requires
            (pin as nat) < self@.len(),
        ensures
            r == self@[pin as int],
    {
        self.trigger_status[pin as usize]
    }

    /// Reports the first listed pin with an unreported event, as its index in
    /// `pins` and the level of the event, and clears that event. The events of
    /// the other pins stay cached.
    pub fn take_triggered(&mut self, pins: &[u8]) -> (r: Option<(usize, Level)>)
        requires
            pins_in(pins@, old(self)@.len()),
        ensures
            final(self)@.len() == old(self)@.len(),
            (match r {
                Some((i, level)) => Some((i as int, level)),
                None => None,
            }) == take_triggered_spec(old(self)@, pins@).0,
            final(self)@ == take_triggered_spec(old(self)@, pins@).1,
    {
        let mut i: usize = 0;
        assert(pins@.subrange(0, pins@.len() as int) =~= pins@);
        while i < pins.len()
            invariant
                i <= pins.len(),
                pins_in(pins@, self@.len()),
                self@ == old(self)@,
                first_triggered(self@, pins@) == (match first_triggered(
                    self@,
                    pins@.subrange(i as int, pins@.len() as int),
                ) {
                    Some(k) => Some(k + i),
                    None => None,
                }),
            decreases pins.len() - i,
        {
            let ghost rest = pins@.subrange(i as int, pins@.len() as int);
            let pin = pins[i];
            let status = self.trigger_status[pin as usize];
            if status.triggered {
                assert(rest[0] == pin);
                self.trigger_status.set(pin as usize, TriggerStatus { triggered: false, ..status });
                return Some((i, status.level));
            }
            assert(rest.drop_first() =~= pins@.subrange(i + 1, pins@.len() as int));
            i += 1;
        }
        None
    }

    /// Clears the unreported events of all listed pins.
    pub fn clear_triggered(&mut self, pins: &[u8])
        requires
            pins_in(pins@, old(self)@.len()),
            old(self)@.len() <= 256,
        ensures
            final(self)@ == clear_all(old(self)@, pins@),
    {
        let mut i: usize = 0;
        while i < pins.len()
            invariant
                i <= pins.len(),
                pins_in(pins@, self@.len()),
                self@.len() == old(self)@.len(),
                old(self)@.len() <= 256,
                self@ == clear_all(old(self)@, pins@.subrange(0, i as int)),
            decreases pins.len() - i,
        {
            let pin = pins[i];
            let status = self.trigger_status[pin as usize];
            self.trigger_status.set(pin as usize, TriggerStatus { triggered: false, ..status });
            proof {
                let before = pins@.subrange(0, i as int);
                let after = pins@.subrange(0, i + 1);
                assert(after =~= before.push(pin));
                assert forall|p: int| 0 <= p < self@.len() implies self@[p] == clear_all(
                    old(self)@,
                    after,
                )[p] by {
                    if p == pin as int {
                        assert(after[i as int] == pin);
                        assert(after.contains(pin));
                    } else {
                        assert(after.contains(p as u8) == before.contains(p as u8)) by {
                            if after.contains(p as u8) {
                                let k = choose|k: int| 0 <= k < after.len() && after[k] == p as u8;
                                if k < before.len() {
                                    assert(before[k] == p as u8);
                                }
                            }
                            if before.contains(p as u8) {
                                let k = choose|k: int| 0 <= k < before.len() && before[k] == p as u8;
                                assert(after[k] == p as u8);
                            }
                        }
                    }
                }
                assert(self@ =~= clear_all(old(self)@, after));
            }
            i += 1;
        }
        assert(pins@.subrange(0, pins@.len() as int) =~= pins@);
    }

    /// Records an edge event seen on a pin; events of pins without an
    /// interrupt are ignored.
    pub fn record_event(&mut self, pin: u8, edge: Trigger)
        requires
            (pin as nat) < old(self)@.len(),
            edge is RisingEdge || edge is FallingEdge,
        ensures
            final(self)@ == record_spec(old(self)@, pin, edge),
    {
        let status = self.trigger_status[pin as usize];
        if status.interrupt.is_some() {
            let level = edge_level(edge);
            self.trigger_status.set(
                pin as usize,
                TriggerStatus { triggered: true, level, ..status },
            );
        }
    }

    /// Decides a poll after a wait that woke up with the edge events `events`
    /// (pin, edge): they are recorded in order and the first listed pin with
    /// an unreported event is reported; without one, the poll ends if
    /// `timed_out` (its time is up) and waits again otherwise.
    pub fn after_wait(&mut self, pins: &[u8], events: &[(u8, Trigger)], timed_out: bool) -> (r:
        PollOutcome)
        requires
            pins_in(pins@, old(self)@.len()),
            events_in(events@, old(self)@.len()),
        ensures
            final(self)@ == take_triggered_spec(record_all(old(self)@, events@), pins@).1,
            match take_triggered_spec(record_all(old(self)@, events@), pins@).0 {
                Some((i, level)) => r == PollOutcome::Found(i as usize, level),
                None => r == (if timed_out {
                    PollOutcome::TimedOut
                } else {
                    PollOutcome::WaitAgain
                }),
            },
    {
        let mut k: usize = 0;
        while k < events.len()
            invariant
                k <= events@.len(),
                events_in(events@, old(self)@.len()),
                self@ == record_all(old(self)@, events@.take(k as int)),
                self@.len() == old(self)@.len(),
            decreases events.len() - k,
        {
            let (pin, edge) = events[k];
            proof {
                assert(events@.take(k + 1).drop_last() =~= events@.take(k as int));
                assert(events@.take(k + 1).last() == events@[k as int]);
            }
            self.record_event(pin, edge);
            k += 1;
        }
        assert(events@.take(events@.len() as int) =~= events@);
        match self.take_triggered(pins) {
            Some((i, level)) => PollOutcome::Found(i, level),
            None => if timed_out {
                PollOutcome::TimedOut
            } else {
                PollOutcome::WaitAgain
            },
        }
    }

    /// Configures a pin's interrupt trigger, dropping any unreported event of
    /// the pin, and says what to do with the pin's event request.
    pub fn set_interrupt(&mut self, pin: u8, trigger: Trigger) -> (r: InterruptAction)
        requires
            (pin as nat) < old(self)@.len(),
        ensures
            final(self)@ == old(self)@.update(
                pin as int,
                TriggerStatus {
                    interrupt: Some(trigger),
                    triggered: false,
                    level: old(self)@[pin as int].level,
                },
            ),
            r == (match old(self)@[pin as int].interrupt {
                Some(t) => if t != trigger {
                    InterruptAction::Rearm
                } else {
                    InterruptAction::Keep
                },
                None => InterruptAction::Register,
            }),
    {
        let status = self.trigger_status[pin as usize];
        let action = match status.interrupt {
            Some(t) => if t != trigger {
                InterruptAction::Rearm
            } else {
                InterruptAction::Keep
            },
            None => InterruptAction::Register,
        };
        self.trigger_status.set(
            pin as usize,
            TriggerStatus { interrupt: Some(trigger), triggered: false, level: status.level },
        );
        action
    }

    /// Removes a pin's interrupt, dropping any unreported event of the pin.
    /// Returns whether an interrupt was configured, whose event request the
    /// caller deregisters.
    pub fn clear_interrupt(&mut self, pin: u8) -> (r: bool)
        requires
            (pin as nat) < old(self)@.len(),
        ensures
            r == old(self)@[pin as int].interrupt is Some,
            final(self)@ == old(self)@.update(
                pin as int,
                TriggerStatus {
                    interrupt: None,
                    triggered: false,
                    level: old(self)@[pin as int].level,
                },
            ),
    {
        let status = self.trigger_status[pin as usize];
        self.trigger_status.set(
            pin as usize,
            TriggerStatus { interrupt: None, triggered: false, level: status.level },
        );
        status.interrupt.is_some()
    }
}

/// When events are seen on two listed pins before a poll, the poll reports
/// the one listed first, and the next poll reports the other with the level
/// of its event.
pub proof fn lemma_first_reported_rest_cached(
    state: Seq<TriggerStatus>,
    pins: Seq<u8>,
    i: int,
    j: int,
    edge_i: Trigger,
    edge_j: Trigger,
)
    requires
        pins_in(pins, state.len()),
        0 <= i < j < pins.len(),
        forall|k1: int, k2: int| 0 <= k1 < k2 < pins.len() ==> pins[k1] != pins[k2],
        forall|k: int| 0 <= k < pins.len() ==> !(#[trigger] state[pins[k] as int]).triggered,
        state[pins[i] as int].interrupt is Some,
        state[pins[j] as int].interrupt is Some,
    ensures
        ({
            let seen = record_spec(record_spec(state, pins[j], edge_j), pins[i], edge_i);
            let first = take_triggered_spec(seen, pins);
            let second = take_triggered_spec(first.1, pins);
            &&& first.0 == Some((i, level_of_edge(edge_i)))
            &&& second.0 == Some((j, level_of_edge(edge_j)))
        }),
{
    let s1 = record_spec(state, pins[j], edge_j);
    let seen = record_spec(s1, pins[i], edge_i);
    assert forall|k: int| 0 <= k < pins.len() && k != i && k != j implies !(#[trigger] seen[pins[k] as int]).triggered by {
        assert(pins[k] != pins[i] && pins[k] != pins[j]);
        assert(!state[pins[k] as int].triggered);
    }
    assert(seen[pins[i] as int].triggered);
    lemma_first_triggered_is(seen, pins, i);
    let first = take_triggered_spec(seen, pins);
    let cleared = clear_one(seen, pins[i]);
    assert(first.1 == cleared);
    assert forall|k: int| 0 <= k < j implies !(#[trigger] cleared[pins[k] as int]).triggered by {
        if k != i {
            assert(pins[k] != pins[i] && pins[k] != pins[j]);
        }
    }
    assert(cleared[pins[j] as int] == seen[pins[j] as int]);
    lemma_first_triggered_is(cleared, pins, j);
}

/// A listed pin is the first with an unreported event when it has one and no
/// earlier listed pin has.
proof fn lemma_first_triggered_is(state: Seq<TriggerStatus>, pins: Seq<u8>, i: int)
    requires
        pins_in(pins, state.len()),
        0 <= i < pins.len(),
        state[pins[i] as int].triggered,
        forall|k: int| 0 <= k < i ==> !(#[trigger] state[pins[k] as int]).triggered,
    ensures
        first_triggered(state, pins) == Some(i),
    decreases i,
{
    if i > 0 {
        let t = pins.drop_first();
        assert(!state[pins[0] as int].triggered);
        assert forall|k: int| 0 <= k < i - 1 implies !(#[trigger] state[t[k] as int]).triggered by {
            assert(t[k] == pins[k + 1]);
        }
        assert(t[i - 1] == pins[i]);
        lemma_first_triggered_is(state, t, i - 1);
    }
}

/// A poll that resets the cache reports nothing from it and leaves no
/// unreported event on any listed pin.
pub proof fn lemma_reset_clears(state: Seq<TriggerStatus>, pins: Seq<u8>)
    requires
        pins_in(pins, state.len()),
        state.len() <= 256,
    ensures
        forall|k: int| 0 <= k < pins.len() ==> !(#[trigger] clear_all(state, pins)[pins[k] as int]).triggered,
{
    assert forall|k: int| 0 <= k < pins.len() implies !(#[trigger] clear_all(
        state,
        pins,
    )[pins[k] as int]).triggered by {
        assert(pins.contains(pins[k]));
        assert((pins[k] as int) as u8 == pins[k]);
    }
}

} // verus!
