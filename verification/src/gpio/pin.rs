//! Pin ownership and the bookkeeping that restores a pin when it's released.
//!
//! A pin is handed out once: retrieving a pin that is in use fails until the
//! owner releases it. A configured pin remembers the mode it had before it
//! was configured, so that it can be put back when it goes out of scope.
use vstd::prelude::*;
use crate::gpio::{Error, Mode, PullUpDown};

verus! {

/// Number of pin slots the registry tracks: one for every 8-bit pin number
/// but the last.
pub const PIN_SLOTS: usize = 255;

/// The pins that are currently handed out.
pub struct PinRegistry {
    taken: Vec<bool>,
    gpio_lines: u8,
}

impl View for PinRegistry {
    type V = Seq<bool>;

    closed spec fn view(&self) -> Seq<bool> {
        self.taken@
    }
}

impl PinRegistry {
    /// The number of pins the GPIO peripheral exposes.
    pub closed spec fn lines(&self) -> u8 {
        self.gpio_lines
    }

    /// The registry's invariant: one slot per pin number below 255.
    pub open spec fn wf(&self) -> bool {
        self@.len() == PIN_SLOTS
    }

    /// An empty registry for a peripheral with `gpio_lines` pins.
    pub fn new(gpio_lines: u8) -> (r: PinRegistry)
        ensures
            r.wf(),
            r.lines() == gpio_lines,
            r@ == Seq::new(PIN_SLOTS as nat, |i: int| false),
    {
        let mut taken: Vec<bool> = Vec::new();
        let mut i: usize = 0;
        while i < PIN_SLOTS
            invariant
                i <= PIN_SLOTS,
                taken@ == Seq::new(i as nat, |k: int| false),
            decreases PIN_SLOTS - i,
        {
            taken.push(false);
            i += 1;
            assert(taken@ =~= Seq::new(i as nat, |k: int| false));
        }
        PinRegistry { taken, gpio_lines }
    }

    /// Whether a pin is handed out.
    pub fn is_taken(&self, pin: u8) -> (r: bool)
        requires
            self.wf(),
        ensures
            r == (pin < PIN_SLOTS && self@[pin as int]),
    {
        if (pin as usize) < PIN_SLOTS {
            self.taken[pin as usize]
        } else {
            false
        }
    }

    /// Hands a pin out. A pin the peripheral doesn't expose gives
    /// `PinNotAvailable`, a pin that is handed out already gives `PinUsed`;
    /// in both cases nothing changes. Otherwise the pin is marked as taken.
    pub fn take(&mut self, pin: u8) -> (r: Result<(), Error>)
        requires
            old(self).wf(),
        ensures
            final(self).wf(),
            final(self).lines() == old(self).lines(),
            r == take_result(old(self)@, old(self).lines(), pin),
            final(self)@ == taken_after_take(old(self)@, old(self).lines(), pin),
    {
        if pin >= self.gpio_lines {
            return Err(Error::PinNotAvailable(pin));
        }
        if self.taken[pin as usize] {
            Err(Error::PinUsed(pin))
        } else {
            self.taken.set(pin as usize, true);
            Ok(())
        }
    }

    /// Releases a pin, so that it can be handed out again.
    pub fn release(&mut self, pin: u8)
        requires
            old(self).wf(),
        ensures
            final(self).wf(),
            final(self).lines() == old(self).lines(),
            final(self)@ == taken_after_release(old(self)@, pin),
    {
        if (pin as usize) < PIN_SLOTS {
            self.taken.set(pin as usize, false);
        }
    }
}

/// The outcome of handing out `pin` when `taken` marks the pins in use and
/// the peripheral exposes `lines` pins.
pub open spec fn take_result(taken: Seq<bool>, lines: u8, pin: u8) -> Result<(), Error> {
    if pin >= lines {
        Err(Error::PinNotAvailable(pin))
    } else if taken[pin as int] {
        Err(Error::PinUsed(pin))
    } else {
        Ok(())
    }
}

/// The pins in use after handing out `pin`.
pub open spec fn taken_after_take(taken: Seq<bool>, lines: u8, pin: u8) -> Seq<bool> {
    if pin < lines && !taken[pin as int] {
        taken.update(pin as int, true)
    } else {
        taken
    }
}

/// The pins in use after releasing `pin`.
pub open spec fn taken_after_release(taken: Seq<bool>, pin: u8) -> Seq<bool> {
    if pin < PIN_SLOTS {
        taken.update(pin as int, false)
    } else {
        taken
    }
}

/// A pin that is free can be handed out; handing it out again before it is
/// released fails with `PinUsed`; once released it can be handed out again,
/// and the other pins are unaffected throughout.
pub proof fn lemma_take_release_take(taken: Seq<bool>, lines: u8, pin: u8)
    requires
        taken.len() == PIN_SLOTS,
        pin < lines,
        !taken[pin as int],
    ensures
        take_result(taken, lines, pin) is Ok,
        take_result(taken_after_take(taken, lines, pin), lines, pin) matches Err(
            Error::PinUsed(p),
        ) && p == pin,
        taken_after_release(taken_after_take(taken, lines, pin), pin) == taken,
        take_result(taken_after_release(taken_after_take(taken, lines, pin), pin), lines, pin) is Ok,
{
    assert(taken.update(pin as int, true).update(pin as int, false) =~= taken);
}

/// A pin number the peripheral doesn't expose is never handed out.
pub proof fn lemma_unavailable_pin(taken: Seq<bool>, lines: u8, pin: u8)
    requires
        pin >= lines,
    ensures
        take_result(taken, lines, pin) matches Err(Error::PinNotAvailable(p)) && p == pin,
        taken_after_take(taken, lines, pin) == taken,
{
}

/// What a configured pin needs to restore its previous state.
#[derive(Debug, Copy, Clone, PartialEq, Eq, Structural)]
pub struct PinReset {
    /// The mode requested when the pin was configured.
    pub mode: Mode,
    /// The mode to restore, when it differs from the requested one.
    pub prev_mode: Option<Mode>,
    /// Whether the pin is restored when it goes out of scope.
    pub reset_on_drop: bool,
    /// The pull-up/down state that was configured.
    pub pud_mode: PullUpDown,
}

/// What is written to a pin when it goes out of scope.
#[derive(Debug, Copy, Clone, PartialEq, Eq, Structural)]
pub struct DropActions {
    /// Mode to write back, if any.
    pub mode: Option<Mode>,
    /// Pull-up/down state to write, if any.
    pub pud: Option<PullUpDown>,
}

impl PinReset {
    /// Configures a pin whose current mode is `current` for `requested`,
    /// with pull-up/down state `pud_mode`. The mode is only written, and
    /// remembered for restoring, when it differs from the current one. The
    /// second element is the mode to write.
    pub fn new(current: Mode, requested: Mode, pud_mode: PullUpDown) -> (r: (PinReset, Option<Mode>))
        ensures
            r.0.mode == requested,
            r.0.reset_on_drop,
            r.0.pud_mode == pud_mode,
            current == requested ==> r.0.prev_mode is None && r.1 is None,
            current != requested ==> r.0.prev_mode == Some(current) && r.1 == Some(requested),
    {
        if current == requested {
            (PinReset { mode: requested, prev_mode: None, reset_on_drop: true, pud_mode }, None)
        } else {
            (
                PinReset {
                    mode: requested,
                    prev_mode: Some(current),
                    reset_on_drop: true,
                    pud_mode,
                },
                Some(requested),
            )
        }
    }

    /// Records a mode change of an I/O pin; the mode is written in every case.
    /// If no mode was remembered yet and the new mode differs from the one
    /// requested at configuration, that one is remembered.
    pub fn set_mode(&mut self, mode: Mode)
        ensures
            final(self).mode == old(self).mode,
            final(self).reset_on_drop == old(self).reset_on_drop,
            final(self).pud_mode == old(self).pud_mode,
            final(self).prev_mode == (if old(self).prev_mode is None && mode != old(self).mode {
                Some(old(self).mode)
            } else {
                old(self).prev_mode
            }),
    {
        if self.prev_mode.is_none() && mode != self.mode {
            self.prev_mode = Some(self.mode);
        }
    }

    /// Records a pull-up/down change.
    pub fn set_pullupdown(&mut self, pud: PullUpDown)
        ensures
            *final(self) == (PinReset { pud_mode: pud, ..*old(self) }),
    {
        self.pud_mode = pud;
    }

    /// Returns whether the pin is restored when it goes out of scope.
    pub fn reset_on_drop(&self) -> (r: bool)
        ensures
            r == self.reset_on_drop,
    {
        self.reset_on_drop
    }

    /// Sets whether the pin is restored when it goes out of scope.
    pub fn set_reset_on_drop(&mut self, reset_on_drop: bool)
        ensures
            *final(self) == (PinReset { reset_on_drop, ..*old(self) }),
    {
        self.reset_on_drop = reset_on_drop;
    }

    /// What to write when the pin goes out of scope: nothing if it isn't
    /// reset on drop; otherwise the remembered mode, and the resistors off
    /// if they were configured.
    pub fn drop_actions(&self) -> (r: DropActions)
        ensures
            !self.reset_on_drop ==> r == (DropActions { mode: None, pud: None }),
            self.reset_on_drop ==> r == (DropActions {
                mode: self.prev_mode,
                pud: if self.pud_mode != PullUpDown::Off {
                    Some(PullUpDown::Off)
                } else {
                    None
                },
            }),
    {
        if !self.reset_on_drop {
            return DropActions { mode: None, pud: None };
        }
        let pud = if self.pud_mode != PullUpDown::Off {
            Some(PullUpDown::Off)
        } else {
            None
        };
        DropActions { mode: self.prev_mode, pud }
    }
}

/// The bookkeeping after configuring a pin whose mode was `original` for
/// `requested`, and then changing its mode to each of `changes` in turn.
pub open spec fn reset_after(original: Mode, requested: Mode, changes: Seq<Mode>) -> Option<Mode>
    decreases changes.len(),
{
    if changes.len() == 0 {
        if original == requested {
            None
        } else {
            Some(original)
        }
    } else {
        let prev = reset_after(original, requested, changes.drop_last());
        if prev is None && changes.last() != requested {
            Some(requested)
        } else {
            prev
        }
    }
}

/// The mode a pin is in after configuring it for `requested` and then
/// changing its mode to each of `changes` in turn.
pub open spec fn mode_after(original: Mode, requested: Mode, changes: Seq<Mode>) -> Mode {
    if changes.len() == 0 {
        requested
    } else {
        changes.last()
    }
}

/// A pin that is reset on drop gets back the mode it had before it was
/// configured, however its mode was changed in between: the remembered mode
/// is the original one, and when nothing is remembered the pin is still in
/// its original mode.
pub proof fn lemma_drop_restores_mode(original: Mode, requested: Mode, changes: Seq<Mode>)
    ensures
        reset_after(original, requested, changes) matches Some(m) ==> m == original,
        reset_after(original, requested, changes) is None ==> mode_after(
            original,
            requested,
            changes,
        ) == original && original == requested,
    decreases changes.len(),
{
    if changes.len() > 0 {
        lemma_drop_restores_mode(original, requested, changes.drop_last());
    }
}

/// A pin's original mode, and whether it has been changed since, so that
/// changed pins can be put back.
#[derive(Debug, Copy, Clone, PartialEq, Eq, Structural)]
pub struct PinState {
    pub pin: u8,
    pub mode: Mode,
    pub changed: bool,
}

impl PinState {
    /// The state of a pin.
    pub fn new(pin: u8, mode: Mode, changed: bool) -> (r: PinState)
        ensures
            r == (PinState { pin, mode, changed }),
    {
        PinState { pin, mode, changed }
    }

    /// Records that the pin is set to `mode`: it counts as changed once it is
    /// set to a mode other than its original one, and stays so.
    pub fn record_mode(&mut self, mode: Mode)
        ensures
            final(self).pin == old(self).pin,
            final(self).mode == old(self).mode,
            final(self).changed == (old(self).changed || mode != old(self).mode),
    {
        if self.mode != mode {
            self.changed = true;
        }
    }

    /// The mode to put the pin back in, if it was changed.
    pub fn restore_mode(&self) -> (r: Option<Mode>)
        ensures
            r == (if self.changed {
                Some(self.mode)
            } else {
                None
            }),
    {
        if self.changed {
            Some(self.mode)
        } else {
            None
        }
    }
}

} // verus!
