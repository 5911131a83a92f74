//! What a UART is asked for and what it answers.
use vstd::prelude::*;

verus! {

/// Why a request was refused or ended early.
#[derive(Clone, Copy, PartialEq, Eq, Debug, Structural)]
pub enum ErrorCode {
    /// The request is not supported.
    FAIL,
    /// Another request is in progress.
    BUSY,
    /// The buffer is too short.
    SIZE,
    /// The request was cancelled.
    CANCEL,
}

/// What went wrong on the line while receiving.
#[derive(Clone, Copy, PartialEq, Eq, Debug, Structural)]
pub enum Error {
    /// Nothing.
    NoError,
    /// Data came faster than it was taken.
    OverrunError,
    /// Receiving was aborted.
    Aborted,
}

/// Number of stop bits.
#[derive(Clone, Copy, PartialEq, Eq, Debug, Structural)]
pub enum StopBits {
    /// One stop bit.
    One,
    /// Two stop bits.
    Two,
}

/// Parity of a word.
#[derive(Clone, Copy, PartialEq, Eq, Debug, Structural)]
pub enum Parity {
    /// No parity bit.
    NoParity,
    /// Odd parity.
    Odd,
    /// Even parity.
    Even,
}

/// Number of bits of a word.
#[derive(Clone, Copy, PartialEq, Eq, Debug, Structural)]
pub enum Width {
    /// Six bits.
    Six,
    /// Seven bits.
    Seven,
    /// Eight bits.
    Eight,
}

/// Line settings.
#[derive(Clone, Copy, PartialEq, Eq, Debug, Structural)]
pub struct Parameters {
    /// Bits per second.
    pub baud_rate: u32,
    /// Bits of a word.
    pub width: Width,
    /// Parity of a word.
    pub parity: Parity,
    /// Stop bits after a word.
    pub stop_bits: StopBits,
    /// Whether the peers hold each other back over the RTS and CTS lines.
    pub hw_flow_control: bool,
}

impl Parameters {
    /// 115200bps 8N1 without hardware flow control, the one setting that the driver supports.
    pub open spec fn supported(self) -> bool {
        self == (Parameters {
            baud_rate: 115200,
            width: Width::Eight,
            parity: Parity::NoParity,
            stop_bits: StopBits::One,
            hw_flow_control: false,
        })
    }

    /// Whether these are the settings that the driver supports.
    pub fn is_supported(&self) -> (yes: bool)
        ensures
            yes == self.supported(),
    {
        !(self.baud_rate != 115200 || self.stop_bits != StopBits::One || self.parity
            != Parity::NoParity || self.hw_flow_control || self.width != Width::Eight)
    }
}

} // verus!
