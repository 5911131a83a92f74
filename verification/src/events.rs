//! Everything that can happen to the driver, and how far a call has come.
use crate::fields::{Field, SR};
use crate::platform::{Buffer, Platform};
use crate::registers::Register;
use crate::state::{State, USARTStateRX, USARTStateTX};
use crate::turn::{AfterAbort, AfterClient, AfterRead, AfterReturn, Command, Next, Reaction};
use crate::uart::ErrorCode;
use vstd::prelude::*;

verus! {

/// A call of the driver.
pub enum Event<P: Platform> {
    /// `transmit_buffer`.
    TransmitBuffer(P::Buffer, usize),
    /// `receive_buffer`.
    ReceiveBuffer(P::Buffer, usize),
    /// `transmit_abort`.
    TransmitAbort,
    /// `receive_abort`.
    ReceiveAbort,
    /// `configure`, with the supported settings.
    Configure,
    /// `send_byte`.
    SendByte(u8),
    /// `handle_interrupt`.
    Interrupt,
    /// `transfer_done`.
    TransferDone(P::Peripheral),
    /// `handle_deferred_call`.
    DeferredCall,
    /// `after_read`.
    Read(AfterRead, u32),
    /// `after_return`.
    Returned(AfterReturn, Option<P::Buffer>),
    /// `after_abort`.
    Aborted(AfterAbort, Option<P::Buffer>, u32),
    /// `after_client`.
    ClientRan(AfterClient),
}

impl<P: Platform> State<P> {
    /// What the driver remembers after a call and what it wants done. A refused buffer changes
    /// nothing and ends the call.
    pub open spec fn react(self, event: Event<P>) -> (State<P>, Reaction<P>) {
        match event {
            Event::TransmitBuffer(data, len) => if self.usart_tx_state is Idle {
                self.transmit_buffer(data, len)
            } else {
                (self, Reaction::plain(Next::Return(Err(ErrorCode::BUSY))))
            },
            Event::ReceiveBuffer(buffer, len) => if !(self.usart_rx_state is Idle) {
                (self, Reaction::plain(Next::Return(Err(ErrorCode::BUSY))))
            } else if len > buffer.size() {
                (self, Reaction::plain(Next::Return(Err(ErrorCode::SIZE))))
            } else {
                self.receive_buffer(buffer, len)
            },
            Event::TransmitAbort => self.transmit_abort(),
            Event::ReceiveAbort => self.receive_abort(),
            Event::Configure => (
                self,
                Reaction {
                    commands: Command::<P>::configuration(),
                    next: Next::Return(Ok(())),
                },
            ),
            Event::SendByte(byte) => (
                self,
                Reaction::plain(Next::Read(Register::SR, AfterRead::SendByte(byte))),
            ),
            Event::Interrupt => (
                self,
                Reaction::plain(Next::Read(Register::SR, AfterRead::TransmissionComplete)),
            ),
            Event::TransferDone(pid) => self.transfer_done(pid),
            Event::DeferredCall => self.handle_deferred_call(),
            Event::Read(point, value) => self.after_read(point, value),
            Event::Returned(point, buffer) => self.after_return(point, buffer),
            Event::Aborted(point, buffer, remaining) => self.after_abort(point, buffer, remaining),
            Event::ClientRan(point) => self.after_client(point),
        }
    }
}

/// What the surroundings answer while a call runs, if each thing is asked for once.
pub struct Replies<P: Platform> {
    /// The status register, when it is looked at for a complete transmission or for room.
    pub status: u32,
    /// The buffer of the transmit stream's finished transfer.
    pub sent: Option<P::Buffer>,
    /// Control register 3.
    pub cr3: u32,
    /// The status register, when it is looked at for lost data.
    pub status_again: u32,
    /// The buffer of the receive stream's finished transfer.
    pub filled: Option<P::Buffer>,
    /// The buffer of a stream's aborted transfer.
    pub aborted: Option<P::Buffer>,
    /// The bytes that an aborted transfer has not moved.
    pub remaining: u32,
}

impl AfterClient {
    /// How many more turns a call can take at most that waits for a client.
    pub open spec fn turns_left(self) -> nat {
        match self {
            AfterClient::Transmitted => 5,
            AfterClient::DeferredTransmit => 2,
            _ => 1,
        }
    }
}

impl<P: Platform> Next<P> {
    /// The call of the driver that follows when what it waits for is answered.
    pub open spec fn answer(self, replies: Replies<P>) -> Event<P>
        recommends
            !(self is Return),
    {
        match self {
            Next::Read(_, point) => Event::Read(
                point,
                match point {
                    AfterRead::ErrorInterrupt => replies.cr3,
                    AfterRead::Overrun => replies.status_again,
                    _ => replies.status,
                },
            ),
            Next::ReturnBuffer(_, point) => Event::Returned(
                point,
                match point {
                    AfterReturn::Transmitted => replies.sent,
                    AfterReturn::Received => replies.filled,
                },
            ),
            Next::AbortTransfer(_, point) => Event::Aborted(
                point,
                replies.aborted,
                replies.remaining,
            ),
            Next::TransmittedBuffer { resume, .. } => Event::ClientRan(resume),
            Next::ReceivedBuffer { resume, .. } => Event::ClientRan(resume),
            Next::Return(_) => arbitrary(),
        }
    }

    /// How many more turns a call can take at most. Waiting for room to send a byte has no bound
    /// of its own.
    pub open spec fn turns_left(self) -> nat {
        match self {
            Next::Read(_, AfterRead::TransmissionComplete) => 7,
            Next::ReturnBuffer(_, AfterReturn::Transmitted) => 6,
            Next::Read(_, AfterRead::ErrorInterrupt) => 4,
            Next::Read(_, AfterRead::Overrun) => 3,
            Next::Return(_) => 0,
            Next::TransmittedBuffer { resume, .. } => resume.turns_left(),
            Next::ReceivedBuffer { resume, .. } => resume.turns_left(),
            Next::AbortTransfer(_, AfterAbort::Overrun) => 2,
            Next::AbortTransfer(..) => 1,
            _ => 2,
        }
    }

    /// Whether a byte waits to be sent.
    pub open spec fn polls(self) -> bool {
        self matches Next::Read(_, AfterRead::SendByte(_))
    }
}

/// Every answer brings a call nearer to its end, but for a byte that still finds no room.
pub proof fn law_calls_end<P: Platform>(state: State<P>, next: Next<P>, replies: Replies<P>)
    requires
        !(next is Return),
        !next.polls(),
    ensures
        state.react(next.answer(replies)).1.next.turns_left() < next.turns_left(),
        !state.react(next.answer(replies)).1.next.polls(),
{
}

/// A byte is written to the data register once the register is empty, and until then the status
/// is read again, with nothing else done.
pub proof fn law_byte_waits_for_room<P: Platform>(state: State<P>, byte: u8, status: u32)
    ensures
        state.react(Event::Read(AfterRead::SendByte(byte), status)).0 == state,
        Field::SR(SR::TXE).set_in(status) ==> state.react(
            Event::Read(AfterRead::SendByte(byte), status),
        ).1 == (Reaction::<P> {
            commands: seq![Command::Write(Register::DR, byte as u32)],
            next: Next::Return(Ok(())),
        }),
        !Field::SR(SR::TXE).set_in(status) ==> state.react(
            Event::Read(AfterRead::SendByte(byte), status),
        ) == state.react(Event::SendByte(byte)),
{
}

/// Something that the surroundings do for the driver.
pub enum Effect<P: Platform> {
    /// They carry out a command.
    Command(Command<P>),
    /// They do what the driver waits for.
    Awaited(Next<P>),
}

/// A call from its start to its end, when nothing else happens to the driver meanwhile.
pub struct Run<P: Platform> {
    /// What was done, in this order.
    pub effects: Seq<Effect<P>>,
    /// What the driver remembers at the end.
    pub state: State<P>,
    /// The last thing that the driver wants: a result, where the call has ended.
    pub last: Next<P>,
}

impl<P: Platform> Run<P> {
    /// The same with something done before.
    pub open spec fn preceded_by(self, effects: Seq<Effect<P>>) -> Run<P> {
        Run { effects: effects + self.effects, ..self }
    }
}

impl<P: Platform> Effect<P> {
    /// Commands as something that is done.
    pub open spec fn carried_out(commands: Seq<Command<P>>) -> Seq<Effect<P>> {
        commands.map_values(|command: Command<P>| Effect::Command(command))
    }
}

impl<P: Platform> State<P> {
    /// The rest of a call that has come to `reaction`, over at most `turns` more turns.
    pub open spec fn go_on(self, reaction: Reaction<P>, replies: Replies<P>, turns: nat) -> Run<P>
        decreases turns,
    {
        let effects = Effect::carried_out(reaction.commands);
        if turns == 0 || reaction.next is Return {
            Run { effects, state: self, last: reaction.next }
        } else {
            let (state, answer) = self.react(reaction.next.answer(replies));
            state.go_on(answer, replies, (turns - 1) as nat).preceded_by(
                effects.push(Effect::Awaited(reaction.next)),
            )
        }
    }

    /// A whole call.
    pub open spec fn run(self, event: Event<P>, replies: Replies<P>) -> Run<P> {
        let (state, reaction) = self.react(event);
        state.go_on(reaction, replies, reaction.next.turns_left())
    }
}

/// A call that waits for nothing but answers comes to its end.
pub proof fn law_runs_return<P: Platform>(
    state: State<P>,
    reaction: Reaction<P>,
    replies: Replies<P>,
    turns: nat,
)
    requires
        !reaction.next.polls(),
        reaction.next.turns_left() <= turns,
    ensures
        state.go_on(reaction, replies, turns).last is Return,
    decreases turns,
{
    if turns != 0 && !(reaction.next is Return) {
        law_calls_end(state, reaction.next, replies);
        let (state, answer) = state.react(reaction.next.answer(replies));
        law_runs_return(state, answer, replies, (turns - 1) as nat);
    }
}

} // verus!
