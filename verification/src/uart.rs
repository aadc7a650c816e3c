//! How the UART frames a byte on the wire.

use vstd::prelude::*;

verus! {

/// Number of data bits in a frame.
#[derive(Clone, Copy, Debug, PartialEq, Eq, Structural)]
pub enum DataBits {
    Bits7,
    Bits8,
    Bits9,
}

/// Number of stop bits that end a frame.
#[derive(Clone, Copy, Debug, PartialEq, Eq, Structural)]
pub enum StopBits {
    /// One stop bit.
    Stop1,
    /// Half a stop bit.
    Stop0P5,
    /// Two stop bits.
    Stop2,
    /// One and a half stop bits.
    Stop1P5,
}

/// The parity bit of a frame.
#[derive(Clone, Copy, Debug, PartialEq, Eq, Structural)]
pub enum Parity {
    NoParity,
    Even,
    Odd,
}

/// How an output pin is driven.
#[derive(Clone, Copy, Debug, PartialEq, Eq, Structural)]
pub enum OutputConfig {
    /// Driven to both levels.
    PushPull,
    /// Driven low only; an external resistor pulls the line up.
    OpenDrain,
    /// Driven low only; the pin's own resistor pulls the line up.
    OpenDrainPullUp,
}

/// Baud rate, framing and the drive of the TX pin.
#[derive(Clone, Copy, Debug, PartialEq, Eq, Structural)]
pub struct UartConfig {
    pub baudrate: u32,
    pub data_bits: DataBits,
    pub stop_bits: StopBits,
    pub parity: Parity,
    pub tx_config: OutputConfig,
}

/// The wire format of the firmware: 115200 baud, eight data bits, no parity,
/// one stop bit, the TX pin driven push-pull.
pub open spec fn serial_framing() -> UartConfig {
    UartConfig {
        baudrate: 115200,
        data_bits: DataBits::Bits8,
        stop_bits: StopBits::Stop1,
        parity: Parity::NoParity,
        tx_config: OutputConfig::PushPull,
    }
}

/// Builds the wire format of the firmware.
#[verifier::when_used_as_spec(serial_framing)]
pub fn uart_config() -> (config: UartConfig)
    ensures
        config == serial_framing(),
{
    UartConfig {
        baudrate: 115200,
        data_bits: DataBits::Bits8,
        stop_bits: StopBits::Stop1,
        parity: Parity::NoParity,
        tx_config: OutputConfig::PushPull,
    }
}

} // verus!
