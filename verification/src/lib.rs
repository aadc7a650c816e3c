//! Bring-up of a serial transmitter on an STM32F4: the clock tree, ownership
//! of pins and peripherals, UART framing, and the endless transmit loop.
//!
//! The library decides; the firmware around it touches the hardware and
//! reports back what the hardware said.

pub mod bringup;
pub mod clock;
pub mod fault;
pub mod resources;
pub mod schedule;
pub mod stage;
pub mod transmit;
pub mod uart;
