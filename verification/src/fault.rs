//! The two kinds of fatal condition: a configuration that cannot be applied,
//! and a fault on the wire. Neither is recovered from; the caller halts.

use vstd::prelude::*;

verus! {

/// Why the UART refused a configuration, as the hardware layer reports it.
#[derive(Clone, Copy, Debug, PartialEq, Eq, Structural)]
pub enum Rejection {
    /// The baud rate is below what the peripheral clock can be divided down to.
    BaudrateTooLow,
    /// The baud rate is above what the peripheral clock can produce.
    BaudrateTooHigh,
    /// Neither the receiver nor the transmitter would be enabled.
    RxOrTxNotEnabled,
    /// The peripheral has no frame format for this word length and parity.
    DataParityNotSupported,
    /// Any other refusal.
    Other,
}

/// A configuration that must not reach the hardware, or that it refused.
#[derive(Clone, Copy, Debug, PartialEq, Eq, Structural)]
pub enum ConfigurationError {
    /// A divider or multiplier has a value that its register field cannot hold.
    DividerOutOfRange,
    /// A clock is taken from an oscillator that is switched off or not fitted.
    OscillatorDisabled,
    /// The system clock is taken from the PLL, which is off or has no P output.
    PllOutputDisabled,
    /// The frequency at the PLL's input lies outside its rated range.
    PllInputOutOfRange,
    /// The frequency of the PLL's oscillator lies outside its rated range.
    VcoOutOfRange,
    /// The system clock exceeds its rated frequency.
    SysclkOverRated,
    /// The low-speed peripheral bus exceeds its rated frequency.
    Pclk1OverRated,
    /// The high-speed peripheral bus exceeds its rated frequency.
    Pclk2OverRated,
    /// The UART refused its configuration.
    UartRejected(Rejection),
}

/// What the hardware reports when it fails to take a byte.
#[derive(Clone, Copy, Debug, PartialEq, Eq, Structural)]
pub enum WriteFault {
    Framing,
    Noise,
    Overrun,
    Parity,
    BufferTooLong,
    /// Any other fault.
    Other,
}

/// A byte that the hardware did not accept.
#[derive(Clone, Copy, Debug, PartialEq, Eq, Structural)]
pub struct TransmitError {
    /// What the hardware reported.
    pub fault: WriteFault,
    /// Index, within the block, of the byte that was refused.
    pub position: usize,
}

} // verus!
