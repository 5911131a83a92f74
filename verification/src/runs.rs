//! Whole calls of the driver, and what several calls do together.
use crate::events::{Effect, Event, Replies, Run};
use crate::fields::{Field, SR};
use crate::platform::Platform;
use crate::registers::Register;
use crate::state::{State, USARTStateRX, USARTStateTX};
use crate::turn::{AfterAbort, AfterClient, AfterRead, AfterReturn, Command, Next, Reaction};
use crate::uart::{Error, ErrorCode};
use vstd::prelude::*;

verus! {

impl<P: Platform> Effect<P> {
    /// A field is made all ones.
    pub open spec fn sets(field: Field) -> Effect<P> {
        Effect::Command(Command::sets(field))
    }

    /// A field is made all zeros.
    pub open spec fn clears(field: Field) -> Effect<P> {
        Effect::Command(Command::clears(field))
    }

    /// The transmit client gets its buffer back.
    pub open spec fn tells_sent(
        client: Option<P::TransmitClient>,
        buffer: Option<P::Buffer>,
        len: usize,
        rcode: Result<(), ErrorCode>,
        resume: AfterClient,
    ) -> Seq<Effect<P>> {
        match (client, buffer) {
            (Some(client), Some(buffer)) => seq![
                Effect::Awaited(Next::TransmittedBuffer { client, buffer, len, rcode, resume }),
            ],
            _ => seq![],
        }
    }

    /// The receive client gets its buffer back.
    pub open spec fn tells_received(
        client: Option<P::ReceiveClient>,
        buffer: Option<P::Buffer>,
        len: usize,
        rcode: Result<(), ErrorCode>,
        error: Error,
        resume: AfterClient,
    ) -> Seq<Effect<P>> {
        match (client, buffer) {
            (Some(client), Some(buffer)) => seq![
                Effect::Awaited(
                    Next::ReceivedBuffer { client, buffer, len, rcode, error, resume },
                ),
            ],
            _ => seq![],
        }
    }
}

impl<P: Platform> State<P> {
    /// An interrupt finds the last transmission complete that was waiting for it.
    pub open spec fn completes(self, replies: Replies<P>) -> bool {
        Field::SR(SR::TC).set_in(replies.status) && self.usart_tx_state is Transfer_Completing
    }

    /// An interrupt finds data lost while errors are of interest.
    pub open spec fn sees_overrun(self, replies: Replies<P>) -> bool {
        Field::eie().set_in(replies.cr3) && Field::SR(SR::ORE).set_in(replies.status_again)
    }

    /// What an interrupt does for the sender.
    pub open spec fn interrupt_sender(self, replies: Replies<P>) -> Seq<Effect<P>> {
        let acknowledged = seq![
            Effect::<P>::clears(Field::SR(SR::TC)),
            Effect::<P>::clears(Field::tcie()),
        ];
        if !Field::SR(SR::TC).set_in(replies.status) {
            seq![]
        } else if !self.completes(replies) {
            acknowledged
        } else {
            acknowledged.push(Effect::<P>::clears(Field::dmat())) + match self.tx_dma {
                Some(stream) => seq![
                    Effect::Awaited(Next::ReturnBuffer(stream, AfterReturn::Transmitted)),
                ] + Effect::<P>::tells_sent(
                    self.tx_client,
                    replies.sent,
                    self.tx_len,
                    Ok(()),
                    AfterClient::Transmitted,
                ),
                None => seq![],
            }
        }
    }

    /// What an interrupt does for the receiver.
    pub open spec fn interrupt_receiver(self, replies: Replies<P>) -> Seq<Effect<P>> {
        let looked: Seq<Effect<P>> = if Field::eie().set_in(replies.cr3) {
            seq![Effect::Awaited(Next::Read(Register::SR, AfterRead::Overrun))]
        } else {
            seq![]
        };
        let touched = looked.push(Effect::Command(Command::Touch(Register::DR)));
        if !self.sees_overrun(replies) {
            looked
        } else if !(self.usart_rx_state is DMA_Receiving) {
            touched
        } else {
            touched + seq![Effect::<P>::clears(Field::dmar()), Effect::<P>::clears(Field::eie())]
                + match self.rx_dma {
                Some(stream) => seq![
                    Effect::Awaited(Next::AbortTransfer(stream, AfterAbort::Overrun)),
                ] + Effect::<P>::tells_received(
                    self.rx_client,
                    replies.aborted,
                    (self.rx_len - replies.remaining) as usize,
                    Err(ErrorCode::CANCEL),
                    Error::OverrunError,
                    AfterClient::Received,
                ),
                None => seq![],
            }
        }
    }
}

/// An interrupt as a whole: first the sender, then the receiver. A transmission that was only
/// waiting for its end goes to the client with the length that was asked for, and the sender is
/// idle. Lost data ends a reception, which goes to the client cancelled, with the number of
/// bytes that had come. Nothing else that is remembered changes.
pub proof fn law_interrupt<P: Platform>(state: State<P>, replies: Replies<P>)
    ensures
        state.run(Event::Interrupt, replies) == (Run {
            effects: seq![
                Effect::Awaited(Next::Read(Register::SR, AfterRead::TransmissionComplete)),
            ] + state.interrupt_sender(replies) + seq![
                Effect::Awaited(Next::Read(Register::CR3, AfterRead::ErrorInterrupt)),
            ] + state.interrupt_receiver(replies),
            state: State {
                tx_len: if state.completes(replies) {
                    0
                } else {
                    state.tx_len
                },
                usart_tx_state: if state.completes(replies) {
                    USARTStateTX::Idle
                } else {
                    state.usart_tx_state
                },
                rx_len: if state.sees_overrun(replies) && state.usart_rx_state is DMA_Receiving {
                    0
                } else {
                    state.rx_len
                },
                usart_rx_state: if state.sees_overrun(replies)
                    && state.usart_rx_state is DMA_Receiving {
                    USARTStateRX::Idle
                } else {
                    state.usart_rx_state
                },
                ..state
            },
            last: Next::Return(Ok(())),
        }),
{
    let start = Next::Read(Register::SR, AfterRead::TransmissionComplete);
    let look = Next::Read(Register::CR3, AfterRead::ErrorInterrupt);
    let (looked, reaction) = state.status_read(replies.status);
    let rest = looked.go_on(reaction, replies, 6);
    lemma_nothing_carried_out::<P>();
    assert(state.run(Event::Interrupt, replies) == rest.preceded_by(
        Effect::<P>::carried_out(seq![]).push(Effect::Awaited(start)),
    ));
    lemma_interrupt_sender(state, replies);
    assert(state.run(Event::Interrupt, replies).effects =~= seq![Effect::Awaited(start)]
        + state.interrupt_sender(replies) + seq![Effect::Awaited(look)]
        + state.interrupt_receiver(replies));
}

/// What is left of an interrupt when it looks for lost data.
pub open spec fn look_for_errors<P: Platform>(state: State<P>, replies: Replies<P>) -> Run<P> {
    Run {
        effects: seq![Effect::Awaited(Next::Read(Register::CR3, AfterRead::ErrorInterrupt))]
            + state.interrupt_receiver(replies),
        state: if state.sees_overrun(replies) && state.usart_rx_state is DMA_Receiving {
            State { rx_len: 0, usart_rx_state: USARTStateRX::Idle, ..state }
        } else {
            state
        },
        last: Next::Return(Ok(())),
    }
}

proof fn lemma_nothing_carried_out<P: Platform>()
    ensures
        Effect::<P>::carried_out(seq![]) == Seq::<Effect<P>>::empty(),
{
}

/// The second half of an interrupt looks for lost data in whatever state it finds the driver, so
/// also after a client that was told in the first half has used the driver.
pub proof fn law_interrupt_looks_for_errors<P: Platform>(
    state: State<P>,
    replies: Replies<P>,
    turns: nat,
)
    requires
        turns >= 4,
    ensures
        state.go_on(
            Reaction::plain(Next::Read(Register::CR3, AfterRead::ErrorInterrupt)),
            replies,
            turns,
        ) == look_for_errors(state, replies),
{
    lemma_nothing_carried_out::<P>();
    let look = Next::Read(Register::CR3, AfterRead::ErrorInterrupt);
    let run = state.go_on(Reaction::plain(look), replies, turns);
    let (first, first_answer) = state.after_read(AfterRead::ErrorInterrupt, replies.cr3);
    let first_run = first.go_on(first_answer, replies, (turns - 1) as nat);
    assert(run == first_run.preceded_by(seq![].push(Effect::Awaited(look))));
    if Field::eie().set_in(replies.cr3) {
        let (second, second_answer) = state.overrun_read(replies.status_again);
        let second_run = second.go_on(second_answer, replies, (turns - 2) as nat);
        assert(first_run == second_run.preceded_by(
            seq![].push(Effect::Awaited(first_answer.next)),
        ));
        if second_answer.next is AbortTransfer {
            let (third, third_answer) = second.overrun(replies.aborted, replies.remaining);
            let third_run = third.go_on(third_answer, replies, (turns - 3) as nat);
            assert(second_run == third_run.preceded_by(
                Effect::<P>::carried_out(second_answer.commands).push(
                    Effect::Awaited(second_answer.next),
                ),
            ));
            if third_answer.next is ReceivedBuffer {
                let (fourth, fourth_answer) = third.after_client(AfterClient::Received);
                let fourth_run = fourth.go_on(fourth_answer, replies, (turns - 4) as nat);
                assert(third_run == fourth_run.preceded_by(
                    seq![].push(Effect::Awaited(third_answer.next)),
                ));
            }
        }
    }
    assert(run.effects =~= look_for_errors(state, replies).effects);
}

proof fn lemma_interrupt_sender<P: Platform>(state: State<P>, replies: Replies<P>)
    ensures
        ({
            let (looked, reaction) = state.status_read(replies.status);
            let idle = if state.completes(replies) {
                State { tx_len: 0, usart_tx_state: USARTStateTX::Idle, ..state }
            } else {
                state
            };
            looked.go_on(reaction, replies, 6) == look_for_errors(idle, replies).preceded_by(
                state.interrupt_sender(replies),
            )
        }),
{
    lemma_nothing_carried_out::<P>();
    let look = Next::Read(Register::CR3, AfterRead::ErrorInterrupt);
    let (looked, reaction) = state.status_read(replies.status);
    let run = looked.go_on(reaction, replies, 6);
    if state.completes(replies) && state.tx_dma is Some {
        let (second, second_answer) = looked.transmitted(replies.sent);
        let second_run = second.go_on(second_answer, replies, 5);
        assert(run == second_run.preceded_by(
            Effect::<P>::carried_out(reaction.commands).push(Effect::Awaited(reaction.next)),
        ));
        if second_answer.next is TransmittedBuffer {
            let third_run = second.go_on(Reaction::plain(look), replies, 4);
            assert(second_run == third_run.preceded_by(
                seq![].push(Effect::Awaited(second_answer.next)),
            ));
            law_interrupt_looks_for_errors(second, replies, 4);
        } else {
            law_interrupt_looks_for_errors(second, replies, 5);
        }
        assert(run.effects =~= look_for_errors(second, replies).preceded_by(
            state.interrupt_sender(replies),
        ).effects);
    } else {
        let plain_run = looked.go_on(Reaction::plain(look), replies, 6);
        let (second, second_answer) = looked.after_read(AfterRead::ErrorInterrupt, replies.cr3);
        let second_run = second.go_on(second_answer, replies, 5);
        assert(run == second_run.preceded_by(
            Effect::<P>::carried_out(reaction.commands).push(Effect::Awaited(look)),
        ));
        assert(plain_run == second_run.preceded_by(seq![].push(Effect::Awaited(look))));
        law_interrupt_looks_for_errors(looked, replies, 6);
        assert(run.effects =~= look_for_errors(looked, replies).preceded_by(
            state.interrupt_sender(replies),
        ).effects);
    }
}

} // verus!
