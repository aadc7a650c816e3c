//! The transmit loop.
//!
//! The loop does one thing at a time: it writes one byte of the block, or it
//! emits one line on the diagnostic channel. `TransmitLoop` says which, and is
//! told how the write went. It announces itself once, then writes the block
//! byte by byte, reports the pass complete, and starts over; it never ends.
//! Whether a line reaches the diagnostic channel is of no concern to it.

use vstd::prelude::*;
use vstd::string::*;
use crate::bringup::UartHandle;
use crate::fault::{TransmitError, WriteFault};
use crate::stage::Stage;

verus! {

/// The block that the firmware transmits, over and over. Its lower-case run
/// goes from `m` straight to `o`: the block is kept as it is.
pub const UART_DATA: &'static str =
    "abcdefghijklmopqrstuvwxyz-0123456789_ABCDEFGHIJKLMNOPQRSTUVWXYZ=";

/// The bytes of the block.
pub open spec fn block() -> Seq<u8> {
    UART_DATA.spec_bytes()
}

/// The bytes of the block.
pub fn payload() -> (data: &'static [u8])
    ensures
        data@ == block(),
{
    UART_DATA.as_bytes()
}

/// A line for the diagnostic channel.
#[derive(Clone, Copy, Debug, PartialEq, Eq, Structural)]
pub enum LogLine {
    /// The UART is configured and the loop is about to start.
    Initialising,
    /// The last byte of the block was accepted.
    BlockComplete,
}

impl LogLine {
    /// The characters of the line.
    pub open spec fn chars(self) -> Seq<char> {
        match self {
            LogLine::Initialising => "Initialising USART2 and starting TX exercises"@,
            LogLine::BlockComplete => "Block complete, looping"@,
        }
    }

    /// The text of the line.
    pub fn text(self) -> (text: &'static str)
        ensures
            text@ == self.chars(),
    {
        match self {
            LogLine::Initialising => "Initialising USART2 and starting TX exercises",
            LogLine::BlockComplete => "Block complete, looping",
        }
    }
}

/// What the firmware is to do next.
#[derive(Clone, Copy, Debug, PartialEq, Eq, Structural)]
pub enum Action {
    /// Write this byte to the UART and wait until the hardware has taken it.
    Write(u8),
    /// Emit this line on the diagnostic channel, if there is one.
    Log(LogLine),
}

/// Where the loop stands.
pub struct Progress {
    /// Whether the loop has announced itself and begun to transmit.
    pub transmitting: bool,
    /// Number of bytes of the block that were accepted in the current pass.
    pub position: nat,
}

impl Progress {
    /// A loop that was just made.
    pub open spec fn start() -> Progress {
        Progress { transmitting: false, position: 0 }
    }

    /// The beginning of a pass.
    pub open spec fn pass_start() -> Progress {
        Progress { transmitting: true, position: 0 }
    }

    /// The position lies within a block of `len` bytes or just behind it, and
    /// nothing was written before the loop announced itself.
    pub open spec fn within(self, len: nat) -> bool {
        &&& self.position <= len
        &&& !self.transmitting ==> self.position == 0
    }
}

/// What is to be done at a point of the loop: the announcement first, then
/// the byte at the position, and behind the last byte the report that the pass
/// is complete.
pub open spec fn pending(data: Seq<u8>, at: Progress) -> Action {
    if !at.transmitting {
        Action::Log(LogLine::Initialising)
    } else if at.position < data.len() {
        Action::Write(data[at.position as int])
    } else {
        Action::Log(LogLine::BlockComplete)
    }
}

/// Where the loop stands once that was done: at the next byte, or, behind
/// the last byte, at the first byte again.
pub open spec fn following(len: nat, at: Progress) -> Progress {
    if !at.transmitting {
        Progress::pass_start()
    } else if at.position < len {
        Progress { transmitting: true, position: at.position + 1 }
    } else {
        Progress::pass_start()
    }
}

/// The endless loop over one block, on one configured UART.
#[derive(Debug, PartialEq, Eq)]
pub struct TransmitLoop<'a> {
    handle: UartHandle,
    data: &'a [u8],
    transmitting: bool,
    position: usize,
}

impl<'a> View for TransmitLoop<'a> {
    type V = Progress;

    closed spec fn view(&self) -> Progress {
        Progress { transmitting: self.transmitting, position: self.position as nat }
    }
}

impl<'a> TransmitLoop<'a> {
    #[verifier::type_invariant]
    spec fn in_bounds(self) -> bool {
        self@.within(self.data@.len())
    }

    /// The block that the loop transmits.
    pub closed spec fn spec_data(&self) -> Seq<u8> {
        self.data@
    }

    /// The UART that the loop transmits on.
    pub closed spec fn spec_handle(&self) -> &UartHandle {
        &self.handle
    }

    /// Enters the loop: takes the UART and the block to transmit.
    pub fn new(handle: UartHandle, data: &'a [u8]) -> (tx: TransmitLoop<'a>)
        ensures
            tx@ == Progress::start(),
            tx.spec_data() == data@,
            *tx.spec_handle() == handle,
    {
        TransmitLoop { handle, data, transmitting: false, position: 0 }
    }

    /// The UART that the loop transmits on.
    #[verifier::when_used_as_spec(spec_handle)]
    pub fn handle(&self) -> (handle: &UartHandle)
        ensures
            handle == self.spec_handle(),
    {
        &self.handle
    }

    /// Number of bytes of the block that were accepted in the current pass.
    pub fn position(&self) -> (position: usize)
        ensures
            position == self@.position,
            self@.within(self.spec_data().len()),
    {
        proof {
            use_type_invariant(self);
        }
        self.position
    }

    /// The stage of bring-up that the loop is in.
    pub fn stage(&self) -> (stage: Stage)
        ensures
            stage == if self@.transmitting {
                Stage::Transmitting
            } else {
                Stage::UartReady
            },
    {
        if self.transmitting {
            Stage::Transmitting
        } else {
            Stage::UartReady
        }
    }

    /// What the firmware is to do next.
    pub fn next_action(&self) -> (action: Action)
        ensures
            action == pending(self.spec_data(), self@),
    {
        proof {
            use_type_invariant(self);
        }
        if !self.transmitting {
            Action::Log(LogLine::Initialising)
        } else if self.position < self.data.len() {
            Action::Write(self.data[self.position])
        } else {
            Action::Log(LogLine::BlockComplete)
        }
    }

    /// Takes note that the pending action was carried out, and how it went.
    ///
    /// A byte that the hardware refused is an error, and the loop stays where
    /// it is. In every other case the loop moves on: what became of a line for
    /// the diagnostic channel makes no difference.
    pub fn advance(&mut self, outcome: Result<(), WriteFault>) -> (r: Result<(), TransmitError>)
        ensures
            final(self).spec_data() == old(self).spec_data(),
            final(self).spec_handle() == old(self).spec_handle(),
            final(self)@.within(final(self).spec_data().len()),
            match (pending(old(self).spec_data(), old(self)@), outcome) {
                (Action::Write(_), Err(fault)) => {
                    &&& r == Err::<(), TransmitError>(
                        TransmitError { fault, position: old(self)@.position as usize },
                    )
                    &&& final(self)@ == old(self)@
                },
                _ => {
                    &&& r is Ok
                    &&& final(self)@ == following(old(self).spec_data().len(), old(self)@)
                },
            },
    {
        proof {
            use_type_invariant(&*self);
        }
        if !self.transmitting {
            self.transmitting = true;
            Ok(())
        } else if self.position < self.data.len() {
            match outcome {
                Ok(_) => {
                    self.position = self.position + 1;
                    Ok(())
                },
                Err(fault) => Err(TransmitError { fault, position: self.position }),
            }
        } else {
            self.position = 0;
            Ok(())
        }
    }
}

} // verus!
