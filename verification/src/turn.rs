//! How the driver and its surroundings take turns.
//!
//! The driver decides and the surroundings act. An entry point of the driver, or one of its
//! `after_*` functions, answers with a [`Turn`]: commands, to be carried out in their order, and
//! then one thing, [`Next`], that the driver waits for. When that is done, its outcome goes to
//! the `after_*` function that fits, which answers with the next turn, until a turn says
//! [`Next::Return`]. While the driver waits, and above all while a client runs, its other entry
//! points may be used.
use crate::fields::FieldValue;
use crate::platform::Platform;
use crate::registers::{Register, UsartRegisters};
use crate::uart::{Error, ErrorCode};
use vstd::prelude::*;

verus! {

/// Something to do that has no outcome.
pub enum Command<P: Platform> {
    /// Read the register of a field and write it back with the field replaced.
    Modify(FieldValue),
    /// Write a register.
    Write(Register, u32),
    /// Read a register for what reading does to the hardware, and ignore the value.
    Touch(Register),
    /// Let a stream move `len` bytes of a buffer.
    DoTransfer {
        /// The stream.
        stream: P::Stream,
        /// Where the bytes come from or go to.
        buffer: P::Buffer,
        /// How many bytes.
        len: usize,
    },
    /// Have `handle_deferred_call` called soon, after the present call has ended.
    SetDeferredCall,
}

/// Where to go on after a register was read.
#[derive(Clone, Copy, PartialEq, Eq, Debug, Structural)]
pub enum AfterRead {
    /// The status register, for whether a transmission is complete.
    TransmissionComplete,
    /// Control register 3, for whether errors are of interest.
    ErrorInterrupt,
    /// The status register, for whether data was lost.
    Overrun,
    /// The status register, for whether the byte can be sent.
    SendByte(u8),
}

/// Where to go on after a stream was asked for the buffer of a finished transfer.
#[derive(Clone, Copy, PartialEq, Eq, Debug, Structural)]
pub enum AfterReturn {
    /// The buffer was sent.
    Transmitted,
    /// The buffer was filled.
    Received,
}

/// Where to go on after a stream was made to abort its transfer.
#[derive(Clone, Copy)]
pub enum AfterAbort {
    /// Data was lost while receiving.
    Overrun,
    /// Sending was aborted, for the reason that the client is to be told.
    Transmit(Result<(), ErrorCode>),
    /// Receiving was aborted, for the reasons that the client is to be told.
    Receive(Result<(), ErrorCode>, Error),
}

/// Where to go on after a client was told about its buffer.
#[derive(Clone, Copy, PartialEq, Eq, Debug, Structural)]
pub enum AfterClient {
    /// Of a finished transmission.
    Transmitted,
    /// Of a finished reception or of lost data.
    Received,
    /// Of an aborted transmission.
    DeferredTransmit,
    /// Of an aborted reception.
    DeferredReceive,
}

/// The one thing that the driver waits for.
#[allow(inconsistent_fields)]
pub enum Next<P: Platform> {
    /// The content of a register; goes to `after_read`.
    Read(Register, AfterRead),
    /// The buffer of the stream's finished transfer, if there is one; goes to `after_return`.
    ReturnBuffer(P::Stream, AfterReturn),
    /// The end of the stream's transfer: its buffer, if there is one, and the number of bytes
    /// that were not moved; goes to `after_abort`.
    AbortTransfer(P::Stream, AfterAbort),
    /// The client has taken its buffer back from a transmission; goes to `after_client`.
    TransmittedBuffer {
        /// Who is told.
        client: P::TransmitClient,
        /// The client's buffer.
        buffer: P::Buffer,
        /// How many bytes were sent.
        len: usize,
        /// How the transmission ended.
        rcode: Result<(), ErrorCode>,
        /// Where to go on.
        resume: AfterClient,
    },
    /// The client has taken its buffer back from a reception; goes to `after_client`.
    ReceivedBuffer {
        /// Who is told.
        client: P::ReceiveClient,
        /// The client's buffer.
        buffer: P::Buffer,
        /// How many bytes were received.
        len: usize,
        /// How the reception ended.
        rcode: Result<(), ErrorCode>,
        /// What was wrong on the line.
        error: Error,
        /// Where to go on.
        resume: AfterClient,
    },
    /// Nothing: the call has ended, with this result. A call that has no result ends with `Ok`.
    Return(Result<(), ErrorCode>),
}

/// What the driver wants done.
pub struct Turn<P: Platform> {
    /// To be carried out first, in this order.
    pub commands: Vec<Command<P>>,
    /// To be done then.
    pub next: Next<P>,
}

/// What the driver wants done, with the commands as a sequence.
pub struct Reaction<P: Platform> {
    /// To be carried out first, in this order.
    pub commands: Seq<Command<P>>,
    /// To be done then.
    pub next: Next<P>,
}

impl<P: Platform> View for Turn<P> {
    type V = Reaction<P>;

    open spec fn view(&self) -> Reaction<P> {
        Reaction { commands: self.commands@, next: self.next }
    }
}

impl<P: Platform> Turn<P> {
    /// A turn without commands.
    pub fn plain(next: Next<P>) -> (turn: Turn<P>)
        ensures
            turn@ == Reaction::plain(next),
    {
        Turn { commands: Vec::new(), next }
    }
}

impl<P: Platform> Reaction<P> {
    /// A reaction without commands.
    pub open spec fn plain(next: Next<P>) -> Reaction<P> {
        Reaction { commands: Seq::empty(), next }
    }
}

impl UsartRegisters {
    /// What the registers hold after a command that found them holding `self`, as far as the
    /// command decides it: reading and starting a transfer leave them to the hardware.
    pub open spec fn after_command<P: Platform>(self, command: Command<P>) -> UsartRegisters {
        match command {
            Command::Modify(change) => self.modified(change),
            Command::Write(register, value) => self.written(register, value),
            _ => self,
        }
    }

    /// What the registers hold after commands that found them holding `self`.
    pub open spec fn after<P: Platform>(self, commands: Seq<Command<P>>) -> UsartRegisters
        decreases commands.len(),
    {
        if commands.len() == 0 {
            self
        } else {
            self.after(commands.drop_last()).after_command(commands.last())
        }
    }
}

} // verus!
