//! GPIO peripheral: pin modes, logic levels, register arithmetic, pin
//! ownership and interrupt bookkeeping.
use vstd::prelude::*;

pub mod interrupt;
pub mod ioctl;
pub mod mem;
pub mod pin;
pub mod soft_pwm;
pub mod sysfs;

verus! {

/// Errors that can occur when accessing the GPIO peripheral.
#[derive(Debug)]
pub enum Error {
    /// The Raspberry Pi model or SoC can't be identified.
    UnknownModel,
    /// The pin is already in use elsewhere in the application.
    PinUsed(u8),
    /// The GPIO peripheral doesn't expose a pin with this BCM number.
    PinNotAvailable(u8),
    /// Permission denied when opening the named device file.
    PermissionDenied(String),
    /// I/O error.
    Io(std::io::Error),
    /// A worker thread panicked.
    ThreadPanic,
}

/// Pin modes.
#[derive(Debug, Copy, Clone, PartialEq, Eq, Structural)]
pub enum Mode {
    Input,
    Output,
    Alt0,
    Alt1,
    Alt2,
    Alt3,
    Alt4,
    Alt5,
    Alt6,
    Alt7,
    Alt8,
}

/// Pin logic levels.
#[derive(Debug, Copy, Clone, PartialEq, Eq, Structural)]
pub enum Level {
    Low,
    High,
}

/// Built-in pull-up/pull-down resistor states.
#[derive(Debug, Copy, Clone, PartialEq, Eq, Structural)]
pub enum PullUpDown {
    Off,
    PullDown,
    PullUp,
}

/// Interrupt trigger conditions.
#[derive(Debug, Copy, Clone, PartialEq, Eq, Structural)]
pub enum Trigger {
    Disabled,
    RisingEdge,
    FallingEdge,
    Both,
}

/// The level a boolean stands for: `true` is high.
pub open spec fn level_of_bool(e: bool) -> Level {
    if e { Level::High } else { Level::Low }
}

/// The level a byte stands for: zero is low, anything else is high.
pub open spec fn level_of_u8(value: u8) -> Level {
    if value == 0 { Level::Low } else { Level::High }
}

/// The opposite level.
pub open spec fn inverted(level: Level) -> Level {
    match level {
        Level::Low => Level::High,
        Level::High => Level::Low,
    }
}

impl From<bool> for Level {
    fn from(e: bool) -> (r: Level) {
        if e {
            Level::High
        } else {
            Level::Low
        }
    }
}

impl vstd::std_specs::convert::FromSpecImpl<bool> for Level {
    open spec fn obeys_from_spec() -> bool {
        true
    }

    open spec fn from_spec(v: bool) -> Level {
        level_of_bool(v)
    }
}

impl From<u8> for Level {
    fn from(value: u8) -> (r: Level) {
        if value == 0 {
            Level::Low
        } else {
            Level::High
        }
    }
}

impl vstd::std_specs::convert::FromSpecImpl<u8> for Level {
    open spec fn obeys_from_spec() -> bool {
        true
    }

    open spec fn from_spec(v: u8) -> Level {
        level_of_u8(v)
    }
}

impl core::ops::Not for Level {
    type Output = Level;

    fn not(self) -> (r: Level) {
        match self {
            Level::Low => Level::High,
            Level::High => Level::Low,
        }
    }
}

impl vstd::std_specs::ops::NotSpecImpl for Level {
    open spec fn obeys_not_spec() -> bool {
        true
    }

    open spec fn not_req(self) -> bool {
        true
    }

    open spec fn not_spec(self) -> Level {
        inverted(self)
    }
}

/// Inverting a level twice gives the level back, and never gives the same level.
pub proof fn lemma_not_involutive(level: Level)
    ensures
        inverted(inverted(level)) == level,
        inverted(level) != level,
{
}

/// The text `Mode` is shown as.
pub open spec fn mode_text(v: Mode) -> &'static str {
    match v {
        Mode::Input => "In",
        Mode::Output => "Out",
        Mode::Alt0 => "Alt0",
        Mode::Alt1 => "Alt1",
        Mode::Alt2 => "Alt2",
        Mode::Alt3 => "Alt3",
        Mode::Alt4 => "Alt4",
        Mode::Alt5 => "Alt5",
        Mode::Alt6 => "Alt6",
        Mode::Alt7 => "Alt7",
        Mode::Alt8 => "Alt8",
    }
}

impl Mode {
    /// The text the value is shown as.
    pub fn as_str(&self) -> (r: &'static str)
        ensures
            r == mode_text(*self),
    {
        match self {
            Mode::Input => "In",
            Mode::Output => "Out",
            Mode::Alt0 => "Alt0",
            Mode::Alt1 => "Alt1",
            Mode::Alt2 => "Alt2",
            Mode::Alt3 => "Alt3",
            Mode::Alt4 => "Alt4",
            Mode::Alt5 => "Alt5",
            Mode::Alt6 => "Alt6",
            Mode::Alt7 => "Alt7",
            Mode::Alt8 => "Alt8",
        }
    }
}

/// The text `Level` is shown as.
pub open spec fn level_text(v: Level) -> &'static str {
    match v {
        Level::Low => "Low",
        Level::High => "High",
    }
}

impl Level {
    /// The text the value is shown as.
    pub fn as_str(&self) -> (r: &'static str)
        ensures
            r == level_text(*self),
    {
        match self {
            Level::Low => "Low",
            Level::High => "High",
        }
    }
}

/// The text `PullUpDown` is shown as.
pub open spec fn pud_text(v: PullUpDown) -> &'static str {
    match v {
        PullUpDown::Off => "Off",
        PullUpDown::PullDown => "PullDown",
        PullUpDown::PullUp => "PullUp",
    }
}

impl PullUpDown {
    /// The text the value is shown as.
    pub fn as_str(&self) -> (r: &'static str)
        ensures
            r == pud_text(*self),
    {
        match self {
            PullUpDown::Off => "Off",
            PullUpDown::PullDown => "PullDown",
            PullUpDown::PullUp => "PullUp",
        }
    }
}

/// The text `Trigger` is shown as.
pub open spec fn trigger_text(v: Trigger) -> &'static str {
    match v {
        Trigger::Disabled => "Disabled",
        Trigger::RisingEdge => "RisingEdge",
        Trigger::FallingEdge => "FallingEdge",
        Trigger::Both => "Both",
    }
}

impl Trigger {
    /// The text the value is shown as.
    pub fn as_str(&self) -> (r: &'static str)
        ensures
            r == trigger_text(*self),
    {
        match self {
            Trigger::Disabled => "Disabled",
            Trigger::RisingEdge => "RisingEdge",
            Trigger::FallingEdge => "FallingEdge",
            Trigger::Both => "Both",
        }
    }
}

/// Directions of a pin exported through sysfs; `Low` and `High` make it an
/// output with that initial level.
#[derive(Debug, Copy, Clone, PartialEq, Eq, Structural)]
pub enum Direction {
    In,
    Out,
    Low,
    High,
}

impl Direction {
    /// The text written to the pin's sysfs `direction` attribute.
    pub fn sysfs_text(&self) -> (r: &'static str)
        ensures
            *self is In ==> r == "in",
            *self is Out ==> r == "out",
            *self is Low ==> r == "low",
            *self is High ==> r == "high",
    {
        match self {
            Direction::In => "in",
            Direction::Out => "out",
            Direction::Low => "low",
            Direction::High => "high",
        }
    }
}

impl Trigger {
    /// The text written to a pin's sysfs `edge` attribute.
    pub fn sysfs_edge_text(&self) -> (r: &'static str)
        ensures
            *self is Disabled ==> r == "none",
            *self is RisingEdge ==> r == "rising",
            *self is FallingEdge ==> r == "falling",
            *self is Both ==> r == "both",
    {
        match self {
            Trigger::Disabled => "none",
            Trigger::RisingEdge => "rising",
            Trigger::FallingEdge => "falling",
            Trigger::Both => "both",
        }
    }

    /// The event flags of a line event request for the trigger: bit 0 asks
    /// for rising edges, bit 1 for falling edges.
    pub fn event_flags(&self) -> (r: u32)
        ensures
            r == (match *self {
                Trigger::Disabled => 0u32,
                Trigger::RisingEdge => 1,
                Trigger::FallingEdge => 2,
                Trigger::Both => 3,
            }),
    {
        match self {
            Trigger::Disabled => 0,
            Trigger::RisingEdge => 1,
            Trigger::FallingEdge => 2,
            Trigger::Both => 3,
        }
    }
}

} // verus!
