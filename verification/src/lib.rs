//! Access to the Raspberry Pi's GPIO, I2C, PWM, SPI and UART peripherals.
//!
//! This crate holds the logic of the library: hardware identification,
//! register arithmetic, bus encodings and the bookkeeping that decides what
//! is sent to the kernel. Every function here carries a contract that Verus
//! proves. Opening device files, memory mapping and the system calls
//! themselves are done by the caller with the values these functions return.
use vstd::prelude::*;

pub mod bytes;
pub mod gpio;
pub mod hal;
pub mod i2c;
pub mod ioctl;
pub mod pwm;
pub mod spi;
pub mod system;
pub mod uart;
pub mod io_error;
