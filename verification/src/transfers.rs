//! What the calls that make up a transfer do together.
use crate::events::{Effect, Event, Replies, Run};
use crate::fields::{Field, SR};
use crate::platform::{Buffer, Platform};
use crate::registers::Register;
use crate::state::{State, USARTStateRX, USARTStateTX};
use crate::turn::{AfterAbort, AfterClient, AfterRead, AfterReturn, Command, Next, Reaction};
use crate::uart::{Error, ErrorCode};
use vstd::prelude::*;

verus! {

/// The same on the sending side.
pub open spec fn same_sender<P: Platform>(one: State<P>, other: State<P>) -> bool {
    &&& one.tx_client == other.tx_client
    &&& one.tx_dma == other.tx_dma
    &&& one.tx_dma_pid == other.tx_dma_pid
    &&& one.tx_len == other.tx_len
    &&& one.usart_tx_state == other.usart_tx_state
    &&& one.partial_tx_buffer == other.partial_tx_buffer
    &&& one.partial_tx_len == other.partial_tx_len
}

/// The same on the receiving side.
pub open spec fn same_receiver<P: Platform>(one: State<P>, other: State<P>) -> bool {
    &&& one.rx_client == other.rx_client
    &&& one.rx_dma == other.rx_dma
    &&& one.rx_dma_pid == other.rx_dma_pid
    &&& one.rx_len == other.rx_len
    &&& one.usart_rx_state == other.usart_rx_state
    &&& one.partial_rx_buffer == other.partial_rx_buffer
    &&& one.partial_rx_len == other.partial_rx_len
}

/// A call that belongs to the sending side alone.
pub open spec fn sends<P: Platform>(state: State<P>, event: Event<P>) -> bool {
    match event {
        Event::TransmitBuffer(..) => true,
        Event::TransmitAbort => true,
        Event::TransferDone(pid) => pid == state.tx_dma_pid,
        Event::Read(AfterRead::TransmissionComplete, _) => true,
        Event::Returned(AfterReturn::Transmitted, _) => true,
        Event::Aborted(AfterAbort::Transmit(_), _, _) => true,
        Event::ClientRan(AfterClient::Transmitted) => true,
        _ => false,
    }
}

/// A call that belongs to the receiving side alone.
pub open spec fn receives<P: Platform>(state: State<P>, event: Event<P>) -> bool {
    match event {
        Event::ReceiveBuffer(..) => true,
        Event::ReceiveAbort => true,
        Event::TransferDone(pid) => pid != state.tx_dma_pid,
        Event::Read(AfterRead::ErrorInterrupt, _) => true,
        Event::Read(AfterRead::Overrun, _) => true,
        Event::Returned(AfterReturn::Received, _) => true,
        Event::Aborted(AfterAbort::Overrun, _, _) => true,
        Event::Aborted(AfterAbort::Receive(..), _, _) => true,
        Event::ClientRan(AfterClient::Received) => true,
        Event::ClientRan(AfterClient::DeferredReceive) => true,
        _ => false,
    }
}

/// Sending and receiving do not disturb each other.
pub proof fn law_sides_are_independent<P: Platform>(state: State<P>, event: Event<P>)
    ensures
        sends(state, event) ==> same_receiver(state.react(event).0, state),
        receives(state, event) ==> same_sender(state.react(event).0, state),
{
}

/// No call changes which registers, clock, clients, streams and names the driver was given; so it
/// stays well-formed.
pub proof fn law_wiring_stays<P: Platform>(state: State<P>, event: Event<P>)
    ensures
        ({
            let later = state.react(event).0;
            &&& later.registers == state.registers
            &&& later.clock == state.clock
            &&& later.tx_client == state.tx_client
            &&& later.rx_client == state.rx_client
            &&& later.tx_dma == state.tx_dma
            &&& later.rx_dma == state.rx_dma
            &&& later.tx_dma_pid == state.tx_dma_pid
            &&& later.rx_dma_pid == state.rx_dma_pid
            &&& later.well_formed() == state.well_formed()
        }),
{
}

/// A sender that is not idle becomes idle only in these ways: an interrupt finds its last byte
/// sent, the stream has been stopped and had no buffer, there is no stream to stop, or it has
/// been seen to that the client of an aborted transmission is told. Until then every further
/// buffer is refused.
pub proof fn law_sender_stays_busy<P: Platform>(
    state: State<P>,
    event: Event<P>,
    data: P::Buffer,
    len: usize,
)
    requires
        !(state.usart_tx_state is Idle),
        match event {
            Event::Read(AfterRead::TransmissionComplete, status) => !Field::SR(SR::TC).set_in(
                status,
            ) || !(state.usart_tx_state is Transfer_Completing),
            Event::Aborted(AfterAbort::Transmit(_), buffer, _) => buffer is Some,
            Event::TransmitAbort => state.tx_dma is Some,
            Event::DeferredCall => state.usart_tx_state is Aborted ==> state.tx_client is Some
                && state.partial_tx_buffer is Some,
            Event::ClientRan(point) => point != AfterClient::DeferredTransmit,
            _ => true,
        },
    ensures
        !(state.react(event).0.usart_tx_state is Idle),
        state.react(event).0.react(Event::TransmitBuffer(data, len)) == (
            state.react(event).0,
            Reaction::<P>::plain(Next::Return(Err(ErrorCode::BUSY))),
        ),
{
}

/// A receiver that is not idle becomes idle only in these ways: the stream has finished, data was
/// lost, the stream has been stopped and had no buffer, there is no stream to stop, or it has
/// been seen to that the client of an aborted reception is told. Until then every further buffer
/// is refused.
pub proof fn law_receiver_stays_busy<P: Platform>(
    state: State<P>,
    event: Event<P>,
    buffer: P::Buffer,
    len: usize,
)
    requires
        !(state.usart_rx_state is Idle),
        match event {
            Event::TransferDone(pid) => pid != state.rx_dma_pid || pid == state.tx_dma_pid
                || !(state.usart_rx_state is DMA_Receiving),
            Event::Read(AfterRead::Overrun, status) => !Field::SR(SR::ORE).set_in(status)
                || !(state.usart_rx_state is DMA_Receiving),
            Event::Aborted(AfterAbort::Receive(..), buffer, _) => buffer is Some,
            Event::ReceiveAbort => state.rx_dma is Some,
            Event::DeferredCall | Event::ClientRan(AfterClient::DeferredTransmit) =>
                state.usart_rx_state is Aborted ==> state.rx_client is Some
                && state.partial_rx_buffer is Some,
            Event::ClientRan(point) => point != AfterClient::DeferredReceive,
            _ => true,
        },
    ensures
        !(state.react(event).0.usart_rx_state is Idle),
        state.react(event).0.react(Event::ReceiveBuffer(buffer, len)) == (
            state.react(event).0,
            Reaction::<P>::plain(Next::Return(Err(ErrorCode::BUSY))),
        ),
{
}

/// While the client is told of a finished transfer its side is already idle, so that it can start
/// the next one at once. While it is told of an aborted one its side is still busy.
pub proof fn law_clients_run_when<P: Platform>(state: State<P>, event: Event<P>)
    requires
        match event {
            Event::Returned(AfterReturn::Transmitted, _) => state.usart_tx_state is Idle,
            Event::Returned(AfterReturn::Received, _) => state.usart_rx_state is Idle,
            Event::Aborted(AfterAbort::Overrun, _, _) => state.usart_rx_state is Idle,
            _ => true,
        },
    ensures
        match state.react(event).1.next {
            Next::TransmittedBuffer { resume: AfterClient::Transmitted, .. } => state.react(
                event,
            ).0.usart_tx_state is Idle,
            Next::TransmittedBuffer { .. } => state.react(event).0.usart_tx_state is Aborted,
            Next::ReceivedBuffer { resume: AfterClient::Received, .. } => state.react(
                event,
            ).0.usart_rx_state is Idle,
            Next::ReceivedBuffer { .. } => state.react(event).0.usart_rx_state is Aborted,
            _ => true,
        },
{
}

/// Only a complete transmission, as the status register shows it, or an abort takes DMA for
/// sending away from the peripheral.
pub proof fn law_dma_stays_until_complete<P: Platform>(state: State<P>, event: Event<P>, i: int)
    requires
        0 <= i < state.react(event).1.commands.len(),
        state.react(event).1.commands[i] == Command::<P>::clears(Field::dmat()),
    ensures
        match event {
            Event::Read(AfterRead::TransmissionComplete, status) => Field::SR(SR::TC).set_in(
                status,
            ) && state.usart_tx_state is Transfer_Completing,
            Event::TransmitAbort => !(state.usart_tx_state is Idle),
            _ => false,
        },
{
    crate::fields::law_mask_is_not_zero(Field::dmat());
}

/// A whole transmission, whatever length an idle sender has noted before: the stream gets the
/// buffer and the length; when it has finished and the last byte is sent, the client, if there is
/// one, gets the buffer that the stream gives back, with that length and without an error. Then
/// the sender is as it was before, with no length noted, and the receiver has had its turn in the
/// interrupt as without the transmission.
pub proof fn law_transmission<P: Platform>(
    state: State<P>,
    data: P::Buffer,
    len: usize,
    stream: P::Stream,
    replies: Replies<P>,
)
    requires
        state.usart_tx_state is Idle,
        state.tx_dma == Some(stream),
        Field::SR(SR::TC).set_in(replies.status),
    ensures
        ({
            let started = state.run(Event::TransmitBuffer(data, len), replies);
            let moved = started.state.run(Event::TransferDone(state.tx_dma_pid), replies);
            let ended = moved.state.run(Event::Interrupt, replies);
            &&& started.last == Next::<P>::Return(Ok(()))
            &&& started.effects == seq![
                Effect::<P>::Command(Command::DoTransfer { stream, buffer: data, len }),
                Effect::<P>::sets(Field::dmat()),
            ]
            &&& moved.last == Next::<P>::Return(Ok(()))
            &&& moved.effects == seq![Effect::<P>::sets(Field::tcie())]
            &&& ended.last == Next::<P>::Return(Ok(()))
            &&& ended.effects == seq![
                Effect::Awaited(Next::Read(Register::SR, AfterRead::TransmissionComplete)),
                Effect::<P>::clears(Field::SR(SR::TC)),
                Effect::<P>::clears(Field::tcie()),
                Effect::<P>::clears(Field::dmat()),
                Effect::Awaited(Next::ReturnBuffer(stream, AfterReturn::Transmitted)),
            ] + Effect::<P>::tells_sent(
                state.tx_client,
                replies.sent,
                len,
                Ok(()),
                AfterClient::Transmitted,
            ) + seq![Effect::Awaited(Next::Read(Register::CR3, AfterRead::ErrorInterrupt))]
                + state.interrupt_receiver(replies)
            &&& same_sender(ended.state, State { tx_len: 0, ..state })
            &&& !(state.sees_overrun(replies) && state.usart_rx_state is DMA_Receiving)
                ==> ended.state == (State { tx_len: 0, ..state })
        }),
{
    let started = state.run(Event::TransmitBuffer(data, len), replies);
    let moved = started.state.run(Event::TransferDone(state.tx_dma_pid), replies);
    crate::runs::law_interrupt(moved.state, replies);
}

/// A whole reception, whatever length an idle receiver has noted before: the stream gets the
/// buffer and the length; when it has finished, the client, if there is one, gets the buffer that
/// the stream gives back, with that length and without an error. Then everything is as it was
/// before, with no length noted.
pub proof fn law_reception<P: Platform>(
    state: State<P>,
    buffer: P::Buffer,
    len: usize,
    stream: P::Stream,
    replies: Replies<P>,
)
    requires
        state.usart_rx_state is Idle,
        state.rx_dma == Some(stream),
        state.well_formed(),
        len <= buffer.size(),
    ensures
        ({
            let started = state.run(Event::ReceiveBuffer(buffer, len), replies);
            let ended = started.state.run(Event::TransferDone(state.rx_dma_pid), replies);
            &&& started.last == Next::<P>::Return(Ok(()))
            &&& started.effects == seq![
                Effect::<P>::Command(Command::DoTransfer { stream, buffer, len }),
                Effect::<P>::sets(Field::eie()),
                Effect::<P>::sets(Field::dmar()),
            ]
            &&& ended == (Run {
                effects: seq![
                    Effect::<P>::clears(Field::dmar()),
                    Effect::<P>::clears(Field::eie()),
                    Effect::Awaited(Next::ReturnBuffer(stream, AfterReturn::Received)),
                ] + Effect::<P>::tells_received(
                    state.rx_client,
                    replies.filled,
                    len,
                    Ok(()),
                    Error::NoError,
                    AfterClient::Received,
                ),
                state: State { rx_len: 0, ..state },
                last: Next::Return(Ok(())),
            })
        }),
{
    reveal_with_fuel(State::go_on, 3);
    let started = state.run(Event::ReceiveBuffer(buffer, len), replies);
    let ended = started.state.run(Event::TransferDone(state.rx_dma_pid), replies);
    assert(ended.effects =~= seq![
        Effect::<P>::clears(Field::dmar()),
        Effect::<P>::clears(Field::eie()),
        Effect::Awaited(Next::ReturnBuffer(stream, AfterReturn::Received)),
    ] + Effect::<P>::tells_received(
        state.rx_client,
        replies.filled,
        len,
        Ok(()),
        Error::NoError,
        AfterClient::Received,
    ));
}

/// A reception that loses data, whatever length an idle receiver has noted before: the next
/// interrupt, after it has seen to the sender, clears the error by reading the data register, stops
/// the stream, and hands the client, if there is one, the buffer that the stream gives back,
/// cancelled, with the number of bytes that were asked for less those that the stream has not
/// moved. Then the receiver is as it was before, with no length noted.
pub proof fn law_lost_data<P: Platform>(
    state: State<P>,
    buffer: P::Buffer,
    len: usize,
    stream: P::Stream,
    replies: Replies<P>,
)
    requires
        state.usart_rx_state is Idle,
        state.rx_dma == Some(stream),
        len <= buffer.size(),
        state.sees_overrun(replies),
        replies.remaining <= len,
    ensures
        ({
            let started = state.run(Event::ReceiveBuffer(buffer, len), replies);
            let ended = started.state.run(Event::Interrupt, replies);
            &&& ended.last == Next::<P>::Return(Ok(()))
            &&& ended.effects == seq![
                Effect::Awaited(Next::Read(Register::SR, AfterRead::TransmissionComplete)),
            ] + state.interrupt_sender(replies) + seq![
                Effect::Awaited(Next::Read(Register::CR3, AfterRead::ErrorInterrupt)),
                Effect::Awaited(Next::Read(Register::SR, AfterRead::Overrun)),
                Effect::Command(Command::Touch(Register::DR)),
                Effect::<P>::clears(Field::dmar()),
                Effect::<P>::clears(Field::eie()),
                Effect::Awaited(Next::AbortTransfer(stream, AfterAbort::Overrun)),
            ] + Effect::<P>::tells_received(
                state.rx_client,
                replies.aborted,
                (len - replies.remaining) as usize,
                Err(ErrorCode::CANCEL),
                Error::OverrunError,
                AfterClient::Received,
            )
            &&& same_receiver(ended.state, State { rx_len: 0, ..state })
            &&& !state.completes(replies) ==> ended.state == (State { rx_len: 0, ..state })
        }),
{
    let started = state.run(Event::ReceiveBuffer(buffer, len), replies);
    crate::runs::law_interrupt(started.state, replies);
}

impl<P: Platform> State<P> {
    /// What a deferred call tells of an aborted transmission.
    pub open spec fn tells_of_aborted_transmission(self) -> Seq<Effect<P>> {
        match self.usart_tx_state {
            USARTStateTX::Aborted(rcode) => Effect::<P>::tells_sent(
                self.tx_client,
                self.partial_tx_buffer,
                self.partial_tx_len,
                rcode,
                AfterClient::DeferredTransmit,
            ),
            _ => seq![],
        }
    }

    /// What a deferred call tells of an aborted reception.
    pub open spec fn tells_of_aborted_reception(self) -> Seq<Effect<P>> {
        match self.usart_rx_state {
            USARTStateRX::Aborted(rcode, error) => Effect::<P>::tells_received(
                self.rx_client,
                self.partial_rx_buffer,
                self.partial_rx_len,
                rcode,
                error,
                AfterClient::DeferredReceive,
            ),
            _ => seq![],
        }
    }
}

/// A deferred call as a whole: the clients of aborted transfers are told, the transmit client
/// first, each if there is one and its buffer is at hand. Both sides are then idle, unless a
/// transfer is in progress there.
pub proof fn law_deferred_call<P: Platform>(state: State<P>, replies: Replies<P>)
    ensures
        state.run(Event::DeferredCall, replies) == (Run {
            effects: state.tells_of_aborted_transmission() + state.tells_of_aborted_reception(),
            state: State {
                usart_tx_state: if state.usart_tx_state is Aborted {
                    USARTStateTX::Idle
                } else {
                    state.usart_tx_state
                },
                partial_tx_buffer: if state.tells_of_aborted_transmission().len() > 0 {
                    None
                } else {
                    state.partial_tx_buffer
                },
                usart_rx_state: if state.usart_rx_state is Aborted {
                    USARTStateRX::Idle
                } else {
                    state.usart_rx_state
                },
                partial_rx_buffer: if state.tells_of_aborted_reception().len() > 0 {
                    None
                } else {
                    state.partial_rx_buffer
                },
                ..state
            },
            last: Next::Return(Ok(())),
        }),
{
    reveal_with_fuel(State::go_on, 3);
    assert(state.run(Event::DeferredCall, replies).effects
        =~= state.tells_of_aborted_transmission() + state.tells_of_aborted_reception());
}

/// A second deferred call right after a first one does nothing.
pub proof fn law_deferred_call_twice<P: Platform>(state: State<P>, replies: Replies<P>)
    ensures
        ({
            let once = state.run(Event::DeferredCall, replies);
            once.state.run(Event::DeferredCall, replies) == (Run {
                effects: seq![],
                state: once.state,
                last: Next::Return(Ok(())),
            })
        }),
{
    law_deferred_call(state, replies);
    let once = state.run(Event::DeferredCall, replies);
    law_deferred_call(once.state, replies);
}

/// An aborted transmission: the call is answered that the sender is busy, and the deferred call
/// that it asks for hands the client, if there is one, the buffer that the stream gives back,
/// cancelled, with the number of bytes that were asked for less those that the stream has not
/// moved. The sender is idle only after that. The receiver is left as it is, and an aborted
/// reception of its own is told of in the same deferred call.
pub proof fn law_aborted_transmission<P: Platform>(
    state: State<P>,
    stream: P::Stream,
    buffer: P::Buffer,
    replies: Replies<P>,
)
    requires
        !(state.usart_tx_state is Idle),
        state.tx_dma == Some(stream),
        replies.aborted == Some(buffer),
        replies.remaining <= state.tx_len,
    ensures
        ({
            let count = (state.tx_len - replies.remaining) as usize;
            let aborted = state.run(Event::TransmitAbort, replies);
            let told = aborted.state.run(Event::DeferredCall, replies);
            &&& aborted == (Run {
                effects: seq![
                    Effect::<P>::clears(Field::dmat()),
                    Effect::Awaited(
                        Next::AbortTransfer(stream, AfterAbort::Transmit(Err(ErrorCode::CANCEL))),
                    ),
                    Effect::Command(Command::SetDeferredCall),
                ],
                state: State {
                    tx_len: 0,
                    usart_tx_state: USARTStateTX::Aborted(Err(ErrorCode::CANCEL)),
                    partial_tx_buffer: Some(buffer),
                    partial_tx_len: count,
                    ..state
                },
                last: Next::Return(Err(ErrorCode::BUSY)),
            })
            &&& told.effects == Effect::<P>::tells_sent(
                state.tx_client,
                Some(buffer),
                count,
                Err(ErrorCode::CANCEL),
                AfterClient::DeferredTransmit,
            ) + state.tells_of_aborted_reception()
            &&& told.state.usart_tx_state is Idle
            &&& told.state.tx_len == 0
            &&& state.tx_client is Some ==> told.state.partial_tx_buffer is None
        }),
{
    reveal_with_fuel(State::go_on, 2);
    let aborted = state.run(Event::TransmitAbort, replies);
    assert(aborted.effects =~= seq![
        Effect::<P>::clears(Field::dmat()),
        Effect::Awaited(Next::AbortTransfer(stream, AfterAbort::Transmit(Err(ErrorCode::CANCEL)))),
        Effect::Command(Command::SetDeferredCall),
    ]);
    law_deferred_call(aborted.state, replies);
}

/// An aborted reception: the call is answered that the receiver is busy, and the deferred call
/// that it asks for hands the client, if there is one, the buffer that the stream gives back,
/// cancelled, with the number of bytes that were asked for less those that the stream has not
/// moved. The receiver is idle only after that. The sender is left as it is, and an aborted
/// transmission of its own is told of in the same deferred call.
pub proof fn law_aborted_reception<P: Platform>(
    state: State<P>,
    stream: P::Stream,
    buffer: P::Buffer,
    replies: Replies<P>,
)
    requires
        state.rx_dma == Some(stream),
        replies.aborted == Some(buffer),
        replies.remaining <= state.rx_len,
    ensures
        ({
            let count = (state.rx_len - replies.remaining) as usize;
            let aborted = state.run(Event::ReceiveAbort, replies);
            let told = aborted.state.run(Event::DeferredCall, replies);
            &&& aborted == (Run {
                effects: seq![
                    Effect::<P>::clears(Field::dmar()),
                    Effect::<P>::clears(Field::eie()),
                    Effect::Awaited(
                        Next::AbortTransfer(
                            stream,
                            AfterAbort::Receive(Err(ErrorCode::CANCEL), Error::Aborted),
                        ),
                    ),
                    Effect::Command(Command::SetDeferredCall),
                ],
                state: State {
                    rx_len: 0,
                    usart_rx_state: USARTStateRX::Aborted(Err(ErrorCode::CANCEL), Error::Aborted),
                    partial_rx_buffer: Some(buffer),
                    partial_rx_len: count,
                    ..state
                },
                last: Next::Return(Err(ErrorCode::BUSY)),
            })
            &&& told.effects == state.tells_of_aborted_transmission() + Effect::<P>::tells_received(
                state.rx_client,
                Some(buffer),
                count,
                Err(ErrorCode::CANCEL),
                Error::Aborted,
                AfterClient::DeferredReceive,
            )
            &&& told.state.usart_rx_state is Idle
            &&& told.state.rx_len == 0
            &&& state.rx_client is Some ==> told.state.partial_rx_buffer is None
        }),
{
    reveal_with_fuel(State::go_on, 2);
    let aborted = state.run(Event::ReceiveAbort, replies);
    assert(aborted.effects =~= seq![
        Effect::<P>::clears(Field::dmar()),
        Effect::<P>::clears(Field::eie()),
        Effect::Awaited(
            Next::AbortTransfer(
                stream,
                AfterAbort::Receive(Err(ErrorCode::CANCEL), Error::Aborted),
            ),
        ),
        Effect::Command(Command::SetDeferredCall),
    ]);
    law_deferred_call(aborted.state, replies);
}

/// Aborting an idle sender succeeds and does nothing; any other abort is answered that the side
/// is busy, whatever the stream says.
pub proof fn law_abort_answers<P: Platform>(state: State<P>, replies: Replies<P>)
    ensures
        state.usart_tx_state is Idle ==> state.run(Event::TransmitAbort, replies) == (Run {
            effects: seq![],
            state,
            last: Next::Return(Ok(())),
        }),
        !(state.usart_tx_state is Idle) ==> state.run(Event::TransmitAbort, replies).last
            == Next::<P>::Return(Err(ErrorCode::BUSY)),
        state.run(Event::ReceiveAbort, replies).last == Next::<P>::Return(Err(ErrorCode::BUSY)),
{
    reveal_with_fuel(State::go_on, 2);
    if state.usart_tx_state is Idle {
        assert(state.run(Event::TransmitAbort, replies).effects =~= seq![]);
    }
}

} // verus!
