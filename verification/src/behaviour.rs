//! What each call does, in terms of its arguments, of what is remembered, of the bits of the
//! registers and of what is wanted next.
use crate::events::Event;
use crate::fields::{Field, FieldValue, BRR, CR1, CR2, CR3, SR};
use crate::platform::{Buffer, Platform};
use crate::rcc::UsartClock;
use crate::registers::{Register, UsartRegisters};
use crate::state::{State, USARTStateRX, USARTStateTX};
use crate::turn::{AfterAbort, AfterClient, AfterRead, AfterReturn, Command, Next, Reaction};
use crate::uart::{Error, ErrorCode};
use vstd::prelude::*;

verus! {

/// A fresh driver knows its registers, its clock and its names, and nothing else: no clients, no
/// streams, no transfers.
pub proof fn law_fresh_driver<P: Platform>(
    registers: u32,
    clock: UsartClock,
    tx_dma_pid: P::Peripheral,
    rx_dma_pid: P::Peripheral,
)
    ensures
        ({
            let state = State::<P>::fresh(registers, clock, tx_dma_pid, rx_dma_pid);
            &&& state.registers == registers
            &&& state.clock == clock
            &&& state.tx_dma_pid == tx_dma_pid
            &&& state.rx_dma_pid == rx_dma_pid
            &&& state.tx_client is None && state.rx_client is None
            &&& state.tx_dma is None && state.rx_dma is None
            &&& state.tx_len == 0 && state.rx_len == 0
            &&& state.usart_tx_state is Idle && state.usart_rx_state is Idle
            &&& state.partial_tx_buffer is None && state.partial_rx_buffer is None
            &&& state.partial_tx_len == 0 && state.partial_rx_len == 0
            &&& state.well_formed() <==> tx_dma_pid != rx_dma_pid
        }),
{
}

/// Whoever else is waiting, an idle sender accepts any buffer: its stream, if it has one, gets the
/// buffer and the length, which is noted, and then DMA for sending is turned on. A sender that is
/// not idle refuses and does nothing.
pub proof fn law_transmit_buffer<P: Platform>(
    state: State<P>,
    data: P::Buffer,
    len: usize,
    stream: P::Stream,
    block: UsartRegisters,
)
    ensures
        ({
            let (later, wanted) = state.react(Event::TransmitBuffer(data, len));
            let dma_on = Command::<P>::Modify(
                FieldValue { field: Field::CR3(CR3::DMAT), value: 1 },
            );
            let registers = block.after(wanted.commands);
            &&& state.usart_tx_state is Idle ==> {
                &&& later.usart_tx_state is DMA_Transmitting
                &&& later == (State {
                    usart_tx_state: USARTStateTX::DMA_Transmitting,
                    tx_len: if state.tx_dma is Some {
                        len
                    } else {
                        state.tx_len
                    },
                    ..state
                })
                &&& wanted.next == Next::<P>::Return(Ok(()))
                &&& registers == (UsartRegisters { cr3: block.cr3 | 0x80, ..block })
                &&& state.tx_dma == Some(stream) ==> wanted.commands == seq![
                    Command::<P>::DoTransfer { stream, buffer: data, len },
                    dma_on,
                ]
                &&& state.tx_dma is None ==> wanted.commands == seq![dma_on]
            }
            &&& !(state.usart_tx_state is Idle) ==> {
                &&& later == state
                &&& wanted.next == Next::<P>::Return(Err(ErrorCode::BUSY))
                &&& wanted.commands.len() == 0
                &&& registers == block
            }
        }),
{
    reveal_with_fuel(UsartRegisters::after, 3);
    lemma_numbers(Field::CR3(CR3::DMAT), block.cr3);
}

/// Whoever else is waiting, an idle receiver accepts a buffer that is long enough: its stream, if
/// it has one, gets the buffer and the length, which is noted, and then the error interrupts and
/// DMA for receiving are turned on. A receiver that is not idle refuses, and so does an idle one
/// where the buffer is shorter than the length; neither does anything.
pub proof fn law_receive_buffer<P: Platform>(
    state: State<P>,
    buffer: P::Buffer,
    len: usize,
    stream: P::Stream,
    block: UsartRegisters,
)
    ensures
        ({
            let (later, wanted) = state.react(Event::ReceiveBuffer(buffer, len));
            let errors_on = Command::<P>::Modify(
                FieldValue { field: Field::CR3(CR3::EIE), value: 1 },
            );
            let dma_on = Command::<P>::Modify(
                FieldValue { field: Field::CR3(CR3::DMAR), value: 1 },
            );
            let registers = block.after(wanted.commands);
            &&& state.usart_rx_state is Idle && len <= buffer.size() ==> {
                &&& later.usart_rx_state is DMA_Receiving
                &&& later == (State {
                    usart_rx_state: USARTStateRX::DMA_Receiving,
                    rx_len: if state.rx_dma is Some {
                        len
                    } else {
                        state.rx_len
                    },
                    ..state
                })
                &&& wanted.next == Next::<P>::Return(Ok(()))
                &&& registers == (UsartRegisters { cr3: (block.cr3 | 0x01) | 0x40, ..block })
                &&& state.rx_dma == Some(stream) ==> wanted.commands == seq![
                    Command::<P>::DoTransfer { stream, buffer, len },
                    errors_on,
                    dma_on,
                ]
                &&& state.rx_dma is None ==> wanted.commands == seq![errors_on, dma_on]
            }
            &&& !(state.usart_rx_state is Idle) || len > buffer.size() ==> {
                &&& later == state
                &&& wanted.next == Next::<P>::Return(
                    Err(
                        if state.usart_rx_state is Idle {
                            ErrorCode::SIZE
                        } else {
                            ErrorCode::BUSY
                        },
                    ),
                )
                &&& wanted.commands.len() == 0
                &&& registers == block
            }
        }),
{
    reveal_with_fuel(UsartRegisters::after, 4);
    lemma_numbers(Field::CR3(CR3::EIE), block.cr3);
    lemma_numbers(Field::CR3(CR3::DMAR), block.cr3 | 0x01);
}

/// Stopping a sender that is not idle turns DMA for sending off, and then stops the stream, if
/// there is one; until the stream has answered, everything is remembered as before. An idle sender
/// is left alone, which is a success.
pub proof fn law_transmit_abort<P: Platform>(
    state: State<P>,
    stream: P::Stream,
    block: UsartRegisters,
)
    ensures
        ({
            let (later, wanted) = state.react(Event::TransmitAbort);
            let registers = block.after(wanted.commands);
            &&& state.usart_tx_state is Idle ==> {
                &&& later == state
                &&& wanted.commands.len() == 0
                &&& wanted.next == Next::<P>::Return(Ok(()))
            }
            &&& !(state.usart_tx_state is Idle) ==> {
                &&& wanted.commands == seq![
                    Command::<P>::Modify(FieldValue { field: Field::CR3(CR3::DMAT), value: 0 }),
                ]
                &&& registers == (UsartRegisters { cr3: block.cr3 & !0x80u32, ..block })
                &&& state.tx_dma == Some(stream) ==> {
                    &&& later == state
                    &&& wanted.next == Next::<P>::AbortTransfer(
                        stream,
                        AfterAbort::Transmit(Err(ErrorCode::CANCEL)),
                    )
                }
                &&& state.tx_dma is None ==> {
                    &&& later == (State { tx_len: 0, usart_tx_state: USARTStateTX::Idle, ..state })
                    &&& wanted.next == Next::<P>::Return(Err(ErrorCode::BUSY))
                }
            }
        }),
{
    reveal_with_fuel(UsartRegisters::after, 2);
    lemma_numbers(Field::CR3(CR3::DMAT), block.cr3);
}

/// Stopping a receiver, whatever it does, turns DMA for receiving and the error interrupts off, and
/// then stops the stream, if there is one; until the stream has answered, everything is remembered
/// as before.
pub proof fn law_receive_abort<P: Platform>(
    state: State<P>,
    stream: P::Stream,
    block: UsartRegisters,
)
    ensures
        ({
            let (later, wanted) = state.react(Event::ReceiveAbort);
            &&& wanted.commands == seq![
                Command::<P>::Modify(FieldValue { field: Field::CR3(CR3::DMAR), value: 0 }),
                Command::<P>::Modify(FieldValue { field: Field::CR3(CR3::EIE), value: 0 }),
            ]
            &&& block.after(wanted.commands) == (UsartRegisters {
                cr3: (block.cr3 & !0x40u32) & !0x01u32,
                ..block
            })
            &&& state.rx_dma == Some(stream) ==> {
                &&& later == state
                &&& wanted.next == Next::<P>::AbortTransfer(
                    stream,
                    AfterAbort::Receive(Err(ErrorCode::CANCEL), Error::Aborted),
                )
            }
            &&& state.rx_dma is None ==> {
                &&& later == (State { rx_len: 0, usart_rx_state: USARTStateRX::Idle, ..state })
                &&& wanted.next == Next::<P>::Return(Err(ErrorCode::BUSY))
            }
        }),
{
    reveal_with_fuel(UsartRegisters::after, 3);
    lemma_numbers(Field::CR3(CR3::DMAR), block.cr3);
    lemma_numbers(Field::CR3(CR3::EIE), block.cr3 & !0x40u32);
}

/// A stopped transmit stream that gives back a buffer leaves an aborted transmission: the buffer is
/// kept, with a count to which the bytes that were not moved add up to the length that was asked
/// for, and a deferred call is asked for. One that gives back none leaves an idle sender. The
/// answer is the same, and the receiver and an earlier buffer are not touched.
pub proof fn law_transmit_stream_stopped<P: Platform>(
    state: State<P>,
    rcode: Result<(), ErrorCode>,
    buffer: P::Buffer,
    remaining: u32,
)
    requires
        remaining <= state.tx_len,
    ensures
        state.requested(AfterAbort::Transmit(rcode)) == state.tx_len,
        ({
            let (later, wanted) = state.react(
                Event::Aborted(AfterAbort::Transmit(rcode), Some(buffer), remaining),
            );
            &&& later.partial_tx_len + remaining == state.tx_len
            &&& later == (State {
                tx_len: 0,
                usart_tx_state: USARTStateTX::Aborted(rcode),
                partial_tx_buffer: Some(buffer),
                partial_tx_len: later.partial_tx_len,
                ..state
            })
            &&& wanted == (Reaction::<P> {
                commands: seq![Command::SetDeferredCall],
                next: Next::Return(Err(ErrorCode::BUSY)),
            })
        }),
        state.react(Event::Aborted(AfterAbort::Transmit(rcode), None, remaining)) == (
            State { tx_len: 0, usart_tx_state: USARTStateTX::Idle, ..state },
            Reaction::<P> { commands: seq![], next: Next::Return(Err(ErrorCode::BUSY)) },
        ),
{
}

/// A stopped receive stream that gives back a buffer leaves an aborted reception: the buffer is
/// kept, with a count to which the bytes that were not moved add up to the length that was asked
/// for, and a deferred call is asked for. One that gives back none leaves an idle receiver. The
/// answer is the same, and the sender and an earlier buffer are not touched.
pub proof fn law_receive_stream_stopped<P: Platform>(
    state: State<P>,
    rcode: Result<(), ErrorCode>,
    error: Error,
    buffer: P::Buffer,
    remaining: u32,
)
    requires
        remaining <= state.rx_len,
    ensures
        state.requested(AfterAbort::Receive(rcode, error)) == state.rx_len,
        ({
            let (later, wanted) = state.react(
                Event::Aborted(AfterAbort::Receive(rcode, error), Some(buffer), remaining),
            );
            &&& later.partial_rx_len + remaining == state.rx_len
            &&& later == (State {
                rx_len: 0,
                usart_rx_state: USARTStateRX::Aborted(rcode, error),
                partial_rx_buffer: Some(buffer),
                partial_rx_len: later.partial_rx_len,
                ..state
            })
            &&& wanted == (Reaction::<P> {
                commands: seq![Command::SetDeferredCall],
                next: Next::Return(Err(ErrorCode::BUSY)),
            })
        }),
        state.react(Event::Aborted(AfterAbort::Receive(rcode, error), None, remaining)) == (
            State { rx_len: 0, usart_rx_state: USARTStateRX::Idle, ..state },
            Reaction::<P> { commands: seq![], next: Next::Return(Err(ErrorCode::BUSY)) },
        ),
{
}

/// A stream that has moved what is to be sent leaves a sender that waits for its last byte, with
/// the interrupt for it on, whatever the sender did before. A stream that has filled a buffer ends
/// a reception in progress: DMA and the error interrupts are turned off, and the stream, if there
/// is one, is asked for the buffer. Any other name, and a receiver that does not receive, is
/// ignored.
pub proof fn law_transfer_done<P: Platform>(
    state: State<P>,
    pid: P::Peripheral,
    stream: P::Stream,
    block: UsartRegisters,
)
    ensures
        ({
            let (later, wanted) = state.react(Event::TransferDone(pid));
            let registers = block.after(wanted.commands);
            &&& pid == state.tx_dma_pid ==> {
                &&& later == (State {
                    usart_tx_state: USARTStateTX::Transfer_Completing,
                    ..state
                })
                &&& wanted == (Reaction::<P> {
                    commands: seq![
                        Command::Modify(FieldValue { field: Field::CR1(CR1::TCIE), value: 1 }),
                    ],
                    next: Next::Return(Ok(())),
                })
                &&& registers == (UsartRegisters { cr1: block.cr1 | 0x40, ..block })
            }
            &&& pid != state.tx_dma_pid && pid == state.rx_dma_pid
                && state.usart_rx_state is DMA_Receiving ==> {
                &&& wanted.commands == seq![
                    Command::<P>::Modify(FieldValue { field: Field::CR3(CR3::DMAR), value: 0 }),
                    Command::<P>::Modify(FieldValue { field: Field::CR3(CR3::EIE), value: 0 }),
                ]
                &&& registers == (UsartRegisters {
                    cr3: (block.cr3 & !0x40u32) & !0x01u32,
                    ..block
                })
                &&& state.rx_dma == Some(stream) ==> {
                    &&& later == (State { usart_rx_state: USARTStateRX::Idle, ..state })
                    &&& wanted.next == Next::<P>::ReturnBuffer(stream, AfterReturn::Received)
                }
                &&& state.rx_dma is None ==> {
                    &&& later == (State { usart_rx_state: USARTStateRX::Idle, rx_len: 0, ..state })
                    &&& wanted.next == Next::<P>::Return(Ok(()))
                }
            }
            &&& pid != state.tx_dma_pid && (pid != state.rx_dma_pid || !(
            state.usart_rx_state is DMA_Receiving)) ==> {
                &&& later == state
                &&& wanted == (Reaction::<P> { commands: seq![], next: Next::Return(Ok(())) })
            }
        }),
{
    reveal_with_fuel(UsartRegisters::after, 3);
    lemma_numbers(Field::CR1(CR1::TCIE), block.cr1);
    lemma_numbers(Field::CR3(CR3::DMAR), block.cr3);
    lemma_numbers(Field::CR3(CR3::EIE), block.cr3 & !0x40u32);
}

/// Configuring does the same whatever is remembered, and changes nothing of that: the divisor is
/// 0x8B, word length, parity and stop bits are cleared, and the transmitter, the receiver and
/// then the USART are turned on. No other bit of any register changes.
pub proof fn law_configure<P: Platform>(state: State<P>, block: UsartRegisters)
    ensures
        ({
            let (later, wanted) = state.react(Event::Configure);
            let registers = block.after(wanted.commands);
            &&& later == state
            &&& wanted.next == Next::<P>::Return(Ok(()))
            &&& registers == (UsartRegisters {
                brr: (block.brr & 0xFFFF_0000) | 0x8B,
                cr1: (block.cr1 & 0xFFFF_EBFF) | 0x200C,
                cr2: block.cr2 & 0xFFFF_CFFF,
                ..block
            })
            &&& wanted.commands == seq![
                Command::<P>::Modify(FieldValue { field: Field::CR1(CR1::M), value: 0 }),
                Command::<P>::Modify(FieldValue { field: Field::CR2(CR2::STOP), value: 0 }),
                Command::<P>::Modify(FieldValue { field: Field::CR1(CR1::PCE), value: 0 }),
                Command::<P>::Modify(
                    FieldValue { field: Field::BRR(BRR::DIV_Fraction), value: 0xB },
                ),
                Command::<P>::Modify(
                    FieldValue { field: Field::BRR(BRR::DIV_Mantissa), value: 0x8 },
                ),
                Command::<P>::Modify(FieldValue { field: Field::CR1(CR1::TE), value: 1 }),
                Command::<P>::Modify(FieldValue { field: Field::CR1(CR1::RE), value: 1 }),
                Command::<P>::Modify(FieldValue { field: Field::CR1(CR1::UE), value: 1 }),
            ]
        }),
{
    reveal_with_fuel(UsartRegisters::after, 9);
    let cr1: u32 = block.cr1;
    let cr2: u32 = block.cr2;
    let brr: u32 = block.brr;
    lemma_numbers(Field::CR1(CR1::M), cr1);
    lemma_numbers(Field::CR2(CR2::STOP), cr2);
    lemma_numbers(Field::CR1(CR1::PCE), cr1 & !0x1000u32);
    lemma_numbers(Field::CR1(CR1::TE), (cr1 & !0x1000u32) & !0x400u32);
    lemma_numbers(Field::CR1(CR1::RE), ((cr1 & !0x1000u32) & !0x400u32) | 0x8);
    lemma_numbers(Field::CR1(CR1::UE), (((cr1 & !0x1000u32) & !0x400u32) | 0x8) | 0x4);
    crate::layout::law_layout(Field::BRR(BRR::DIV_Fraction));
    crate::layout::law_layout(Field::BRR(BRR::DIV_Mantissa));
    crate::layout::law_mask_is_bits_moved_down(Field::BRR(BRR::DIV_Fraction));
    crate::layout::law_mask_is_bits_moved_down(Field::BRR(BRR::DIV_Mantissa));
    assert(((((((cr1 & !0x1000u32) & !0x400u32) | 0x8) | 0x4) | 0x2000) == (cr1 & 0xFFFF_EBFF)
        | 0x200C) && (cr2 & !0x3000u32 == cr2 & 0xFFFF_CFFF) && ((((brr & !0xFu32) | ((0xBu32
        & 0xFu32) << 0usize)) & !0xFFF0u32) | ((0x8u32 & 0xFFFu32) << 4usize) == (brr & 0xFFFF_0000)
        | 0x8B)) by (bit_vector);
}

/// Sending a byte reads the status again and again, with nothing else done and nothing remembered,
/// until bit 7 shows that there is room. Then exactly the byte is written to the data register,
/// which replaces what it held, and the call ends.
pub proof fn law_send_byte<P: Platform>(
    state: State<P>,
    byte: u8,
    full: u32,
    room: u32,
    block: UsartRegisters,
)
    requires
        full & 0x80 == 0,
        room & 0x80 != 0,
    ensures
        ({
            let wait = Next::<P>::Read(Register::SR, AfterRead::SendByte(byte));
            let (first, begun) = state.react(Event::SendByte(byte));
            let (second, waiting) = first.react(Event::Read(AfterRead::SendByte(byte), full));
            let (third, sent) = second.react(Event::Read(AfterRead::SendByte(byte), room));
            &&& first == state && second == state && third == state
            &&& begun == (Reaction::<P> { commands: seq![], next: wait })
            &&& waiting == (Reaction::<P> { commands: seq![], next: wait })
            &&& sent == (Reaction::<P> {
                commands: seq![Command::Write(Register::DR, byte as u32)],
                next: Next::Return(Ok(())),
            })
            &&& block.after(sent.commands) == (UsartRegisters { dr: byte as u32, ..block })
        }),
{
    reveal_with_fuel(UsartRegisters::after, 2);
    crate::layout::law_layout(Field::SR(SR::TXE));
}

/// An interrupt begins with the status register, and nothing is remembered of that.
pub proof fn law_interrupt_begins<P: Platform>(state: State<P>)
    ensures
        state.react(Event::Interrupt) == (
            state,
            Reaction::<P> {
                commands: seq![],
                next: Next::Read(Register::SR, AfterRead::TransmissionComplete),
            },
        ),
{
}

/// An interrupt whose status has bit 6 clear goes on to look for errors. With bit 6 set, whatever
/// the other bits are, bit 6 of the status and the interrupt for it are turned off; and a sender
/// that was waiting for this, and no other, becomes idle, DMA for sending is turned off, and the
/// stream, if there is one, is asked for the buffer.
pub proof fn law_transmission_complete<P: Platform>(
    state: State<P>,
    status: u32,
    stream: P::Stream,
    block: UsartRegisters,
)
    ensures
        ({
            let (later, wanted) = state.react(Event::Read(AfterRead::TransmissionComplete, status));
            let registers = block.after(wanted.commands);
            let look = Next::<P>::Read(Register::CR3, AfterRead::ErrorInterrupt);
            let flag_off = Command::<P>::Modify(
                FieldValue { field: Field::SR(SR::TC), value: 0 },
            );
            let interrupt_off = Command::<P>::Modify(
                FieldValue { field: Field::CR1(CR1::TCIE), value: 0 },
            );
            let dma_off = Command::<P>::Modify(
                FieldValue { field: Field::CR3(CR3::DMAT), value: 0 },
            );
            &&& status & 0x40 == 0 ==> {
                &&& later == state
                &&& wanted == (Reaction::<P> { commands: seq![], next: look })
            }
            &&& status & 0x40 != 0 && !(state.usart_tx_state is Transfer_Completing) ==> {
                &&& later == state
                &&& wanted == (Reaction::<P> {
                    commands: seq![flag_off, interrupt_off],
                    next: look,
                })
                &&& registers == (UsartRegisters {
                    sr: block.sr & !0x40u32,
                    cr1: block.cr1 & !0x40u32,
                    ..block
                })
            }
            &&& status & 0x40 != 0 && state.usart_tx_state is Transfer_Completing ==> {
                &&& wanted.commands == seq![flag_off, interrupt_off, dma_off]
                &&& registers == (UsartRegisters {
                    sr: block.sr & !0x40u32,
                    cr1: block.cr1 & !0x40u32,
                    cr3: block.cr3 & !0x80u32,
                    ..block
                })
                &&& state.tx_dma == Some(stream) ==> {
                    &&& later == (State { usart_tx_state: USARTStateTX::Idle, ..state })
                    &&& wanted.next == Next::<P>::ReturnBuffer(stream, AfterReturn::Transmitted)
                }
                &&& state.tx_dma is None ==> {
                    &&& later == (State { usart_tx_state: USARTStateTX::Idle, tx_len: 0, ..state })
                    &&& wanted.next == look
                }
            }
        }),
{
    reveal_with_fuel(UsartRegisters::after, 4);
    lemma_numbers(Field::SR(SR::TC), block.sr);
    lemma_numbers(Field::CR1(CR1::TCIE), block.cr1);
    lemma_numbers(Field::CR3(CR3::DMAT), block.cr3);
}

/// The buffer of a finished transmission goes to the client, if there are both, with the length
/// that was noted and without an error; the length is forgotten before the client is told. Without
/// one of them, and after the client, errors are looked for.
pub proof fn law_sent_buffer<P: Platform>(
    state: State<P>,
    buffer: Option<P::Buffer>,
    client: P::TransmitClient,
    sent: P::Buffer,
)
    ensures
        ({
            let (later, wanted) = state.react(Event::Returned(AfterReturn::Transmitted, buffer));
            &&& later == (State { tx_len: 0, ..state })
            &&& wanted.commands.len() == 0
            &&& state.tx_client == Some(client) && buffer == Some(sent) ==> wanted.next
                == (Next::<P>::TransmittedBuffer {
                client,
                buffer: sent,
                len: state.tx_len,
                rcode: Ok(()),
                resume: AfterClient::Transmitted,
            })
            &&& state.tx_client is None || buffer is None ==> wanted.next == Next::<P>::Read(
                Register::CR3,
                AfterRead::ErrorInterrupt,
            )
        }),
{
}

/// The buffer of a finished reception goes to the client, if there are both, with the length that
/// was noted and without an error; the length is forgotten before the client is told. Without one
/// of them the call ends.
pub proof fn law_filled_buffer<P: Platform>(
    state: State<P>,
    buffer: Option<P::Buffer>,
    client: P::ReceiveClient,
    filled: P::Buffer,
)
    ensures
        ({
            let (later, wanted) = state.react(Event::Returned(AfterReturn::Received, buffer));
            &&& later == (State { rx_len: 0, ..state })
            &&& wanted.commands.len() == 0
            &&& state.rx_client == Some(client) && buffer == Some(filled) ==> wanted.next
                == (Next::<P>::ReceivedBuffer {
                client,
                buffer: filled,
                len: state.rx_len,
                rcode: Ok(()),
                error: Error::NoError,
                resume: AfterClient::Received,
            })
            &&& state.rx_client is None || buffer is None ==> wanted.next == Next::<P>::Return(
                Ok(()),
            )
        }),
{
}

/// What a client does while it is told of a finished transfer, or of lost data, stands: when it
/// returns, the driver remembers exactly what the client has left. After a transmission the
/// interrupt goes on to look for errors; after a reception the call ends.
pub proof fn law_client_has_the_last_word<P: Platform>(state: State<P>)
    ensures
        state.react(Event::ClientRan(AfterClient::Transmitted)) == (
            state,
            Reaction::<P> {
                commands: seq![],
                next: Next::Read(Register::CR3, AfterRead::ErrorInterrupt),
            },
        ),
        state.react(Event::ClientRan(AfterClient::Received)) == (
            state,
            Reaction::<P> { commands: seq![], next: Next::Return(Ok(())) },
        ),
{
}

/// A transmission that a client starts while it is told of the previous one is reported like any
/// other: with the buffer that the stream gives back and the length that the client asked for.
pub proof fn law_transmission_started_by_client<P: Platform>(
    state: State<P>,
    data: P::Buffer,
    len: usize,
    stream: P::Stream,
    client: P::TransmitClient,
    status: u32,
    sent: P::Buffer,
)
    requires
        state.usart_tx_state is Idle,
        state.tx_dma == Some(stream),
        state.tx_client == Some(client),
        status & 0x40 != 0,
    ensures
        ({
            let accepted = state.react(Event::TransmitBuffer(data, len)).0;
            let returned = accepted.react(Event::ClientRan(AfterClient::Transmitted)).0;
            let moved = returned.react(Event::TransferDone(state.tx_dma_pid)).0;
            let (idle, asked) = moved.react(Event::Read(AfterRead::TransmissionComplete, status));
            let (later, told) = idle.react(Event::Returned(AfterReturn::Transmitted, Some(sent)));
            &&& asked.next == Next::<P>::ReturnBuffer(stream, AfterReturn::Transmitted)
            &&& told.next == (Next::<P>::TransmittedBuffer {
                client,
                buffer: sent,
                len,
                rcode: Ok(()),
                resume: AfterClient::Transmitted,
            })
            &&& later == (State { tx_len: 0, ..state })
        }),
{
    crate::layout::law_layout(Field::SR(SR::TC));
}

/// A reception that a client starts while it is told of the previous one is reported like any
/// other: with the buffer that the stream gives back and the length that the client asked for.
pub proof fn law_reception_started_by_client<P: Platform>(
    state: State<P>,
    buffer: P::Buffer,
    len: usize,
    stream: P::Stream,
    client: P::ReceiveClient,
    filled: P::Buffer,
)
    requires
        state.usart_rx_state is Idle,
        state.rx_dma == Some(stream),
        state.rx_client == Some(client),
        state.rx_dma_pid != state.tx_dma_pid,
        len <= buffer.size(),
    ensures
        ({
            let accepted = state.react(Event::ReceiveBuffer(buffer, len)).0;
            let returned = accepted.react(Event::ClientRan(AfterClient::Received)).0;
            let (idle, asked) = returned.react(Event::TransferDone(state.rx_dma_pid));
            let (later, told) = idle.react(Event::Returned(AfterReturn::Received, Some(filled)));
            &&& asked.next == Next::<P>::ReturnBuffer(stream, AfterReturn::Received)
            &&& told.next == (Next::<P>::ReceivedBuffer {
                client,
                buffer: filled,
                len,
                rcode: Ok(()),
                error: Error::NoError,
                resume: AfterClient::Received,
            })
            &&& later == (State { rx_len: 0, ..state })
        }),
{
}

/// Errors are of interest if and only if bit 0 of control register 3 is set, whatever the other
/// bits are: then the status is read for them, and otherwise the call ends. Nothing is remembered
/// of that.
pub proof fn law_errors_of_interest<P: Platform>(state: State<P>, cr3: u32)
    ensures
        state.react(Event::Read(AfterRead::ErrorInterrupt, cr3)) == (
            state,
            Reaction::<P> {
                commands: seq![],
                next: if cr3 & 0x01 != 0 {
                    Next::Read(Register::SR, AfterRead::Overrun)
                } else {
                    Next::Return(Ok(()))
                },
            },
        ),
{
    crate::layout::law_layout(Field::CR3(CR3::EIE));
}

/// Data was lost if and only if bit 3 of the status is set, whatever the other bits are. Then the
/// data register is read; and a reception in progress, and nothing else, ends: DMA for receiving
/// and the error interrupts are turned off and the stream, if there is one, is stopped.
pub proof fn law_overrun_ends_reception<P: Platform>(
    state: State<P>,
    status: u32,
    stream: P::Stream,
    block: UsartRegisters,
)
    ensures
        ({
            let (later, wanted) = state.react(Event::Read(AfterRead::Overrun, status));
            let registers = block.after(wanted.commands);
            &&& status & 0x08 == 0 ==> {
                &&& later == state
                &&& wanted == (Reaction::<P> { commands: seq![], next: Next::Return(Ok(())) })
            }
            &&& status & 0x08 != 0 && !(state.usart_rx_state is DMA_Receiving) ==> {
                &&& later == state
                &&& wanted == (Reaction::<P> {
                    commands: seq![Command::Touch(Register::DR)],
                    next: Next::Return(Ok(())),
                })
            }
            &&& status & 0x08 != 0 && state.usart_rx_state is DMA_Receiving ==> {
                &&& wanted.commands == seq![
                    Command::<P>::Touch(Register::DR),
                    Command::<P>::Modify(FieldValue { field: Field::CR3(CR3::DMAR), value: 0 }),
                    Command::<P>::Modify(FieldValue { field: Field::CR3(CR3::EIE), value: 0 }),
                ]
                &&& registers == (UsartRegisters {
                    cr3: (block.cr3 & !0x40u32) & !0x01u32,
                    ..block
                })
                &&& state.rx_dma == Some(stream) ==> {
                    &&& later == (State { usart_rx_state: USARTStateRX::Idle, ..state })
                    &&& wanted.next == Next::<P>::AbortTransfer(stream, AfterAbort::Overrun)
                }
                &&& state.rx_dma is None ==> {
                    &&& later == (State { usart_rx_state: USARTStateRX::Idle, rx_len: 0, ..state })
                    &&& wanted.next == Next::<P>::Return(Ok(()))
                }
            }
        }),
{
    reveal_with_fuel(UsartRegisters::after, 4);
    crate::layout::law_layout(Field::SR(SR::ORE));
    lemma_numbers(Field::CR3(CR3::DMAR), block.cr3);
    lemma_numbers(Field::CR3(CR3::EIE), block.cr3 & !0x40u32);
}

/// The buffer into which data was lost goes to the client, if there are both, cancelled because of
/// the overrun, with a count to which the bytes that were not moved add up to the length that was
/// noted; the length is forgotten before the client is told. Without one of them the call ends.
pub proof fn law_cut_buffer<P: Platform>(
    state: State<P>,
    buffer: Option<P::Buffer>,
    remaining: u32,
    client: P::ReceiveClient,
    cut: P::Buffer,
    count: usize,
)
    requires
        count + remaining == state.rx_len,
    ensures
        state.requested(AfterAbort::Overrun) == state.rx_len,
        ({
            let (later, wanted) = state.react(
                Event::Aborted(AfterAbort::Overrun, buffer, remaining),
            );
            &&& later == (State { rx_len: 0, ..state })
            &&& wanted.commands.len() == 0
            &&& state.rx_client == Some(client) && buffer == Some(cut) ==> wanted.next
                == (Next::<P>::ReceivedBuffer {
                client,
                buffer: cut,
                len: count,
                rcode: Err(ErrorCode::CANCEL),
                error: Error::OverrunError,
                resume: AfterClient::Received,
            })
            &&& state.rx_client is None || buffer is None ==> wanted.next == Next::<P>::Return(
                Ok(()),
            )
        }),
{
}

/// An interrupt that finds bit 0 of control register 3 set and bit 3 of the status set, whatever
/// the other bits of both are, ends a reception in progress: the data register is read, DMA for
/// receiving and the error interrupts are turned off, the stream is stopped, and the client is told
/// that its reception was cancelled because of an overrun, with a count to which the bytes that
/// were not moved add up to the length that was asked for. The receiver is then idle, and the
/// sender as it was.
pub proof fn law_interrupt_reports_overrun<P: Platform>(
    state: State<P>,
    cr3: u32,
    status: u32,
    stream: P::Stream,
    client: P::ReceiveClient,
    cut: P::Buffer,
    remaining: u32,
    count: usize,
)
    requires
        state.usart_rx_state is DMA_Receiving,
        state.rx_dma == Some(stream),
        state.rx_client == Some(client),
        cr3 & 0x01 != 0,
        status & 0x08 != 0,
        count + remaining == state.rx_len,
    ensures
        ({
            let (first, look) = state.react(Event::Read(AfterRead::ErrorInterrupt, cr3));
            let (second, stop) = first.react(Event::Read(AfterRead::Overrun, status));
            let (third, told) = second.react(
                Event::Aborted(AfterAbort::Overrun, Some(cut), remaining),
            );
            let (fourth, end) = third.react(Event::ClientRan(AfterClient::Received));
            &&& look == (Reaction::<P> {
                commands: seq![],
                next: Next::Read(Register::SR, AfterRead::Overrun),
            })
            &&& stop == (Reaction::<P> {
                commands: seq![
                    Command::Touch(Register::DR),
                    Command::Modify(FieldValue { field: Field::CR3(CR3::DMAR), value: 0 }),
                    Command::Modify(FieldValue { field: Field::CR3(CR3::EIE), value: 0 }),
                ],
                next: Next::AbortTransfer(stream, AfterAbort::Overrun),
            })
            &&& told == (Reaction::<P> {
                commands: seq![],
                next: Next::ReceivedBuffer {
                    client,
                    buffer: cut,
                    len: count,
                    rcode: Err(ErrorCode::CANCEL),
                    error: Error::OverrunError,
                    resume: AfterClient::Received,
                },
            })
            &&& end == (Reaction::<P> { commands: seq![], next: Next::Return(Ok(())) })
            &&& fourth == (State { usart_rx_state: USARTStateRX::Idle, rx_len: 0, ..state })
        }),
{
    crate::layout::law_layout(Field::CR3(CR3::EIE));
    crate::layout::law_layout(Field::SR(SR::ORE));
}

/// An interrupt that finds bit 6 of the status set, whatever its other bits are, ends a
/// transmission that was waiting for it: the client gets the buffer that the stream gives back,
/// with the length that was asked for and without an error. The sender is then idle, the receiver
/// as it was, and errors are looked for after the client has run.
pub proof fn law_interrupt_reports_transmission<P: Platform>(
    state: State<P>,
    status: u32,
    stream: P::Stream,
    client: P::TransmitClient,
    sent: P::Buffer,
)
    requires
        state.usart_tx_state is Transfer_Completing,
        state.tx_dma == Some(stream),
        state.tx_client == Some(client),
        status & 0x40 != 0,
    ensures
        ({
            let (first, begin) = state.react(Event::Interrupt);
            let (second, stop) = first.react(
                Event::Read(AfterRead::TransmissionComplete, status),
            );
            let (third, told) = second.react(Event::Returned(AfterReturn::Transmitted, Some(sent)));
            let (fourth, look) = third.react(Event::ClientRan(AfterClient::Transmitted));
            &&& begin.next == Next::<P>::Read(Register::SR, AfterRead::TransmissionComplete)
            &&& stop.commands == seq![
                Command::<P>::Modify(FieldValue { field: Field::SR(SR::TC), value: 0 }),
                Command::<P>::Modify(FieldValue { field: Field::CR1(CR1::TCIE), value: 0 }),
                Command::<P>::Modify(FieldValue { field: Field::CR3(CR3::DMAT), value: 0 }),
            ]
            &&& stop.next == Next::<P>::ReturnBuffer(stream, AfterReturn::Transmitted)
            &&& told == (Reaction::<P> {
                commands: seq![],
                next: Next::TransmittedBuffer {
                    client,
                    buffer: sent,
                    len: state.tx_len,
                    rcode: Ok(()),
                    resume: AfterClient::Transmitted,
                },
            })
            &&& look == (Reaction::<P> {
                commands: seq![],
                next: Next::Read(Register::CR3, AfterRead::ErrorInterrupt),
            })
            &&& fourth == (State { usart_tx_state: USARTStateTX::Idle, tx_len: 0, ..state })
        }),
{
    crate::layout::law_layout(Field::SR(SR::TC));
}

/// A deferred call hands the client of an aborted transmission, if there is one, the buffer that
/// was kept, if there is one, with its count and its reason, and the buffer is kept no longer; the
/// sender stays aborted until the client has returned. Where nobody can be told, the sender is idle
/// at once. Either way what is left is what a deferred call does for an idle sender: to see to the
/// receiver.
pub proof fn law_deferred_call_for_sender<P: Platform>(
    state: State<P>,
    rcode: Result<(), ErrorCode>,
    client: P::TransmitClient,
    buffer: P::Buffer,
)
    ensures
        state.usart_tx_state == USARTStateTX::Aborted(rcode) && state.tx_client == Some(client)
            && state.partial_tx_buffer == Some(buffer) ==> state.react(Event::DeferredCall) == (
            State { partial_tx_buffer: None, ..state },
            Reaction::<P> {
                commands: seq![],
                next: Next::TransmittedBuffer {
                    client,
                    buffer,
                    len: state.partial_tx_len,
                    rcode,
                    resume: AfterClient::DeferredTransmit,
                },
            },
        ),
        state.usart_tx_state is Aborted && (state.tx_client is None
            || state.partial_tx_buffer is None) ==> state.react(Event::DeferredCall) == (State {
            usart_tx_state: USARTStateTX::Idle,
            ..state
        }).react(Event::DeferredCall),
        state.react(Event::ClientRan(AfterClient::DeferredTransmit)) == (State {
            usart_tx_state: USARTStateTX::Idle,
            ..state
        }).react(Event::DeferredCall),
{
}

/// Once the sender is not aborted, a deferred call hands the client of an aborted reception, if
/// there is one, the buffer that was kept, if there is one, with its count and its reasons, and the
/// buffer is kept no longer; the receiver stays aborted until the client has returned, and is then
/// idle. Where nobody can be told the receiver is idle at once and what was kept stays. A receiver
/// that was not aborted is left alone.
pub proof fn law_deferred_call_for_receiver<P: Platform>(
    state: State<P>,
    rcode: Result<(), ErrorCode>,
    error: Error,
    client: P::ReceiveClient,
    buffer: P::Buffer,
)
    requires
        !(state.usart_tx_state is Aborted),
    ensures
        state.usart_rx_state == USARTStateRX::Aborted(rcode, error) && state.rx_client == Some(
            client,
        ) && state.partial_rx_buffer == Some(buffer) ==> state.react(Event::DeferredCall) == (
            State { partial_rx_buffer: None, ..state },
            Reaction::<P> {
                commands: seq![],
                next: Next::ReceivedBuffer {
                    client,
                    buffer,
                    len: state.partial_rx_len,
                    rcode,
                    error,
                    resume: AfterClient::DeferredReceive,
                },
            },
        ),
        state.usart_rx_state is Aborted && (state.rx_client is None
            || state.partial_rx_buffer is None) ==> state.react(Event::DeferredCall) == (
            State { usart_rx_state: USARTStateRX::Idle, ..state },
            Reaction::<P> { commands: seq![], next: Next::Return(Ok(())) },
        ),
        !(state.usart_rx_state is Aborted) ==> state.react(Event::DeferredCall) == (
            state,
            Reaction::<P> { commands: seq![], next: Next::Return(Ok(())) },
        ),
{
}

/// A receiver is idle once the client of its aborted reception has returned, and the call ends;
/// nothing else is remembered otherwise.
pub proof fn law_receiver_idle_after_client<P: Platform>(state: State<P>)
    ensures
        state.react(Event::ClientRan(AfterClient::DeferredReceive)) == (
            State { usart_rx_state: USARTStateRX::Idle, ..state },
            Reaction::<P> { commands: seq![], next: Next::Return(Ok(())) },
        ),
{
}

proof fn lemma_numbers(field: Field, content: u32)
    ensures
        field.set().modified(content) == content | field.bits(),
        field.clear().modified(content) == content & !field.bits(),
        ({
            let place: (Register, usize, u32) = (field.register(), field.offset(), field.bits());
            match field {
                Field::SR(SR::TC) => place == (Register::SR, 6usize, 0x40u32),
                Field::CR1(CR1::TCIE) => place == (Register::CR1, 6usize, 0x40u32),
                Field::CR1(CR1::M) => place == (Register::CR1, 12usize, 0x1000u32),
                Field::CR1(CR1::PCE) => place == (Register::CR1, 10usize, 0x400u32),
                Field::CR1(CR1::TE) => place == (Register::CR1, 3usize, 0x8u32),
                Field::CR1(CR1::RE) => place == (Register::CR1, 2usize, 0x4u32),
                Field::CR1(CR1::UE) => place == (Register::CR1, 13usize, 0x2000u32),
                Field::CR2(CR2::STOP) => place == (Register::CR2, 12usize, 0x3000u32),
                Field::CR3(CR3::DMAT) => place == (Register::CR3, 7usize, 0x80u32),
                Field::CR3(CR3::DMAR) => place == (Register::CR3, 6usize, 0x40u32),
                Field::CR3(CR3::EIE) => place == (Register::CR3, 0usize, 0x1u32),
                _ => true,
            }
        }),
        field.numbits() == 1 ==> field.set().value == 1,
        field.clear().value == 0,
{
    crate::layout::law_layout(field);
    crate::layout::law_mask_is_bits_moved_down(field);
    crate::layout::law_setting_and_clearing(field, content);
}

} // verus!
