//! The driver as a state machine: what it remembers, and what it does at each event.
use crate::fields::{Field, FieldValue, BRR, CR1, CR2, CR3, SR};
use crate::platform::Platform;
use crate::rcc::UsartClock;
use crate::registers::Register;
use crate::turn::{AfterAbort, AfterClient, AfterRead, AfterReturn, Command, Next, Reaction};
use crate::uart::{Error, ErrorCode};
use vstd::prelude::*;

verus! {

/// What the receiving side is doing.
#[allow(non_camel_case_types)]
#[derive(Clone, Copy, PartialEq, Eq, Debug)]
pub enum USARTStateRX {
    /// Nothing.
    Idle,
    /// The stream fills a buffer.
    DMA_Receiving,
    /// The client has yet to be told that receiving was aborted, and why.
    Aborted(Result<(), ErrorCode>, Error),
}

/// What the sending side is doing.
#[allow(non_camel_case_types)]
#[derive(Clone, Copy, PartialEq, Eq, Debug)]
pub enum USARTStateTX {
    /// Nothing.
    Idle,
    /// The stream empties a buffer.
    DMA_Transmitting,
    /// The client has yet to be told that sending was aborted, and why.
    Aborted(Result<(), ErrorCode>),
    /// The stream has finished, but not all bytes are sent.
    Transfer_Completing,
}

/// Everything that the driver remembers.
pub struct State<P: Platform> {
    /// Address of the register block.
    pub registers: u32,
    /// Clock of the USART.
    pub clock: UsartClock,
    /// Who is told about sent buffers.
    pub tx_client: Option<P::TransmitClient>,
    /// Who is told about filled buffers.
    pub rx_client: Option<P::ReceiveClient>,
    /// Stream for sending.
    pub tx_dma: Option<P::Stream>,
    /// Name of the sending side at the DMA controller.
    pub tx_dma_pid: P::Peripheral,
    /// Stream for receiving.
    pub rx_dma: Option<P::Stream>,
    /// Name of the receiving side at the DMA controller.
    pub rx_dma_pid: P::Peripheral,
    /// Bytes that the transmission in progress was asked for.
    pub tx_len: usize,
    /// Bytes that the reception in progress was asked for.
    pub rx_len: usize,
    /// What the sending side is doing.
    pub usart_tx_state: USARTStateTX,
    /// What the receiving side is doing.
    pub usart_rx_state: USARTStateRX,
    /// Buffer of an aborted transmission.
    pub partial_tx_buffer: Option<P::Buffer>,
    /// Bytes that an aborted transmission has sent.
    pub partial_tx_len: usize,
    /// Buffer of an aborted reception.
    pub partial_rx_buffer: Option<P::Buffer>,
    /// Bytes that an aborted reception has received.
    pub partial_rx_len: usize,
}

impl Field {
    /// DMA for sending on the peripheral side.
    pub open spec fn dmat() -> Field {
        Field::CR3(CR3::DMAT)
    }

    /// DMA for receiving on the peripheral side.
    pub open spec fn dmar() -> Field {
        Field::CR3(CR3::DMAR)
    }

    /// Interrupts for framing, overrun and noise errors.
    pub open spec fn eie() -> Field {
        Field::CR3(CR3::EIE)
    }

    /// Interrupt for the end of a transmission.
    pub open spec fn tcie() -> Field {
        Field::CR1(CR1::TCIE)
    }
}

impl<P: Platform> Command<P> {
    /// The field is made all ones.
    pub open spec fn sets(field: Field) -> Command<P> {
        Command::Modify(field.set())
    }

    /// The field is made all zeros.
    pub open spec fn clears(field: Field) -> Command<P> {
        Command::Modify(field.clear())
    }

    /// Eight data bits, one stop bit, no parity and the divisor for 115200bps; then the
    /// transmitter, the receiver and the USART are enabled.
    pub open spec fn configuration() -> Seq<Command<P>> {
        seq![
            Command::clears(Field::CR1(CR1::M)),
            Command::clears(Field::CR2(CR2::STOP)),
            Command::clears(Field::CR1(CR1::PCE)),
            Command::Modify(FieldValue { field: Field::BRR(BRR::DIV_Fraction), value: 0xB }),
            Command::Modify(FieldValue { field: Field::BRR(BRR::DIV_Mantissa), value: 0x8 }),
            Command::sets(Field::CR1(CR1::TE)),
            Command::sets(Field::CR1(CR1::RE)),
            Command::sets(Field::CR1(CR1::UE)),
        ]
    }
}

impl<P: Platform> State<P> {
    /// The two sides are known to the DMA controller under different names.
    pub open spec fn well_formed(self) -> bool {
        self.tx_dma_pid != self.rx_dma_pid
    }

    /// A driver that has no streams and no clients yet and has done nothing.
    pub open spec fn fresh(
        registers: u32,
        clock: UsartClock,
        tx_dma_pid: P::Peripheral,
        rx_dma_pid: P::Peripheral,
    ) -> State<P> {
        State {
            registers,
            clock,
            tx_client: None,
            rx_client: None,
            tx_dma: None,
            tx_dma_pid,
            rx_dma: None,
            rx_dma_pid,
            tx_len: 0,
            rx_len: 0,
            usart_tx_state: USARTStateTX::Idle,
            usart_rx_state: USARTStateRX::Idle,
            partial_tx_buffer: None,
            partial_tx_len: 0,
            partial_rx_buffer: None,
            partial_rx_len: 0,
        }
    }

    /// A transmission of `len` bytes is accepted. Without a stream nothing is transferred and no
    /// length is noted.
    pub open spec fn transmit_buffer(self, data: P::Buffer, len: usize) -> (State<P>, Reaction<P>) {
        match self.tx_dma {
            Some(stream) => (
                State { tx_len: len, usart_tx_state: USARTStateTX::DMA_Transmitting, ..self },
                Reaction {
                    commands: seq![
                        Command::DoTransfer { stream, buffer: data, len },
                        Command::sets(Field::dmat()),
                    ],
                    next: Next::Return(Ok(())),
                },
            ),
            None => (
                State { usart_tx_state: USARTStateTX::DMA_Transmitting, ..self },
                Reaction {
                    commands: seq![Command::sets(Field::dmat())],
                    next: Next::Return(Ok(())),
                },
            ),
        }
    }

    /// A reception of `len` bytes is accepted. Without a stream nothing is transferred and no
    /// length is noted.
    pub open spec fn receive_buffer(self, buffer: P::Buffer, len: usize) -> (
        State<P>,
        Reaction<P>,
    ) {
        match self.rx_dma {
            Some(stream) => (
                State { rx_len: len, usart_rx_state: USARTStateRX::DMA_Receiving, ..self },
                Reaction {
                    commands: seq![
                        Command::DoTransfer { stream, buffer, len },
                        Command::sets(Field::eie()),
                        Command::sets(Field::dmar()),
                    ],
                    next: Next::Return(Ok(())),
                },
            ),
            None => (
                State { usart_rx_state: USARTStateRX::DMA_Receiving, ..self },
                Reaction {
                    commands: seq![Command::sets(Field::eie()), Command::sets(Field::dmar())],
                    next: Next::Return(Ok(())),
                },
            ),
        }
    }

    /// The transmit stream has stopped with `remaining` bytes unsent. If it had a buffer, the
    /// client is to be told later.
    pub open spec fn transmit_aborted(
        self,
        rcode: Result<(), ErrorCode>,
        buffer: Option<P::Buffer>,
        remaining: u32,
    ) -> (State<P>, Reaction<P>) {
        match buffer {
            Some(_) => (
                State {
                    tx_len: 0,
                    usart_tx_state: USARTStateTX::Aborted(rcode),
                    partial_tx_buffer: buffer,
                    partial_tx_len: (self.tx_len - remaining) as usize,
                    ..self
                },
                Reaction {
                    commands: seq![Command::SetDeferredCall],
                    next: Next::Return(Err(ErrorCode::BUSY)),
                },
            ),
            None => (
                State { tx_len: 0, usart_tx_state: USARTStateTX::Idle, ..self },
                Reaction::plain(Next::Return(Err(ErrorCode::BUSY))),
            ),
        }
    }

    /// The receive stream has stopped with `remaining` bytes not received. If it had a buffer,
    /// the client is to be told later.
    pub open spec fn receive_aborted(
        self,
        rcode: Result<(), ErrorCode>,
        error: Error,
        buffer: Option<P::Buffer>,
        remaining: u32,
    ) -> (State<P>, Reaction<P>) {
        match buffer {
            Some(_) => (
                State {
                    rx_len: 0,
                    usart_rx_state: USARTStateRX::Aborted(rcode, error),
                    partial_rx_buffer: buffer,
                    partial_rx_len: (self.rx_len - remaining) as usize,
                    ..self
                },
                Reaction {
                    commands: seq![Command::SetDeferredCall],
                    next: Next::Return(Err(ErrorCode::BUSY)),
                },
            ),
            None => (
                State { rx_len: 0, usart_rx_state: USARTStateRX::Idle, ..self },
                Reaction::plain(Next::Return(Err(ErrorCode::BUSY))),
            ),
        }
    }

    /// Sending is to stop, and the client is to be told `rcode`.
    pub open spec fn abort_tx(self, rcode: Result<(), ErrorCode>) -> (State<P>, Reaction<P>) {
        match self.tx_dma {
            Some(stream) => (
                self,
                Reaction {
                    commands: seq![Command::clears(Field::dmat())],
                    next: Next::AbortTransfer(stream, AfterAbort::Transmit(rcode)),
                },
            ),
            None => (
                State { tx_len: 0, usart_tx_state: USARTStateTX::Idle, ..self },
                Reaction {
                    commands: seq![Command::clears(Field::dmat())],
                    next: Next::Return(Err(ErrorCode::BUSY)),
                },
            ),
        }
    }

    /// Receiving is to stop, and the client is to be told `rcode` and `error`.
    pub open spec fn abort_rx(self, rcode: Result<(), ErrorCode>, error: Error) -> (
        State<P>,
        Reaction<P>,
    ) {
        match self.rx_dma {
            Some(stream) => (
                self,
                Reaction {
                    commands: seq![Command::clears(Field::dmar()), Command::clears(Field::eie())],
                    next: Next::AbortTransfer(stream, AfterAbort::Receive(rcode, error)),
                },
            ),
            None => (
                State { rx_len: 0, usart_rx_state: USARTStateRX::Idle, ..self },
                Reaction {
                    commands: seq![Command::clears(Field::dmar()), Command::clears(Field::eie())],
                    next: Next::Return(Err(ErrorCode::BUSY)),
                },
            ),
        }
    }

    /// An idle sender has nothing to stop; any other is cancelled.
    pub open spec fn transmit_abort(self) -> (State<P>, Reaction<P>) {
        if self.usart_tx_state is Idle {
            (self, Reaction::plain(Next::Return(Ok(()))))
        } else {
            self.abort_tx(Err(ErrorCode::CANCEL))
        }
    }

    /// The receiver is cancelled, whatever it is doing.
    pub open spec fn receive_abort(self) -> (State<P>, Reaction<P>) {
        self.abort_rx(Err(ErrorCode::CANCEL), Error::Aborted)
    }

    /// A stream is through with the transfer for `pid`. Bytes that were sent may still be on
    /// their way, so the end of sending is left to an interrupt.
    pub open spec fn transfer_done(self, pid: P::Peripheral) -> (State<P>, Reaction<P>) {
        if pid == self.tx_dma_pid {
            (
                State { usart_tx_state: USARTStateTX::Transfer_Completing, ..self },
                Reaction {
                    commands: seq![Command::sets(Field::tcie())],
                    next: Next::Return(Ok(())),
                },
            )
        } else if pid == self.rx_dma_pid && self.usart_rx_state is DMA_Receiving {
            let stopped = State { usart_rx_state: USARTStateRX::Idle, ..self };
            let commands = seq![Command::clears(Field::dmar()), Command::clears(Field::eie())];
            match self.rx_dma {
                Some(stream) => (
                    stopped,
                    Reaction {
                        commands,
                        next: Next::ReturnBuffer(stream, AfterReturn::Received),
                    },
                ),
                None => (
                    State { rx_len: 0, ..stopped },
                    Reaction { commands, next: Next::Return(Ok(())) },
                ),
            }
        } else {
            (self, Reaction::plain(Next::Return(Ok(()))))
        }
    }

    /// The buffer of the finished transmission, if the stream had one, goes to the client, if
    /// there is one. Then errors are looked for.
    pub open spec fn transmitted(self, buffer: Option<P::Buffer>) -> (State<P>, Reaction<P>) {
        (
            State { tx_len: 0, ..self },
            match (self.tx_client, buffer) {
                (Some(client), Some(buffer)) => Reaction::plain(
                    Next::TransmittedBuffer {
                        client,
                        buffer,
                        len: self.tx_len,
                        rcode: Ok(()),
                        resume: AfterClient::Transmitted,
                    },
                ),
                _ => Reaction::plain(Next::Read(Register::CR3, AfterRead::ErrorInterrupt)),
            },
        )
    }

    /// The buffer of the finished reception, if the stream had one, goes to the client, if there
    /// is one.
    pub open spec fn received(self, buffer: Option<P::Buffer>) -> (State<P>, Reaction<P>) {
        (
            State { rx_len: 0, ..self },
            match (self.rx_client, buffer) {
                (Some(client), Some(buffer)) => Reaction::plain(
                    Next::ReceivedBuffer {
                        client,
                        buffer,
                        len: self.rx_len,
                        rcode: Ok(()),
                        error: Error::NoError,
                        resume: AfterClient::Received,
                    },
                ),
                _ => Reaction::plain(Next::Return(Ok(()))),
            },
        )
    }

    /// The buffer into which data was lost, if the stream had one, goes to the client, if there
    /// is one, with the number of bytes that had come before.
    pub open spec fn overrun(self, buffer: Option<P::Buffer>, remaining: u32) -> (
        State<P>,
        Reaction<P>,
    ) {
        (
            State { rx_len: 0, ..self },
            match (self.rx_client, buffer) {
                (Some(client), Some(buffer)) => Reaction::plain(
                    Next::ReceivedBuffer {
                        client,
                        buffer,
                        len: (self.rx_len - remaining) as usize,
                        rcode: Err(ErrorCode::CANCEL),
                        error: Error::OverrunError,
                        resume: AfterClient::Received,
                    },
                ),
                _ => Reaction::plain(Next::Return(Ok(()))),
            },
        )
    }

    /// A register was read while handling an interrupt or sending a byte.
    pub open spec fn after_read(self, point: AfterRead, value: u32) -> (State<P>, Reaction<P>) {
        match point {
            AfterRead::TransmissionComplete => self.status_read(value),
            AfterRead::ErrorInterrupt => (
                self,
                if Field::eie().set_in(value) {
                    Reaction::plain(Next::Read(Register::SR, AfterRead::Overrun))
                } else {
                    Reaction::plain(Next::Return(Ok(())))
                },
            ),
            AfterRead::Overrun => self.overrun_read(value),
            AfterRead::SendByte(byte) => (
                self,
                if Field::SR(SR::TXE).set_in(value) {
                    Reaction {
                        commands: seq![Command::Write(Register::DR, byte as u32)],
                        next: Next::Return(Ok(())),
                    }
                } else {
                    Reaction::plain(Next::Read(Register::SR, point))
                },
            ),
        }
    }

    /// The status register was read at the start of an interrupt. A complete transmission is
    /// acknowledged in any state, and ends one that was only waiting for it.
    pub open spec fn status_read(self, status: u32) -> (State<P>, Reaction<P>) {
        let look_for_errors = Next::Read(Register::CR3, AfterRead::ErrorInterrupt);
        let acknowledge = seq![Command::clears(Field::SR(SR::TC)), Command::clears(Field::tcie())];
        if !Field::SR(SR::TC).set_in(status) {
            (self, Reaction::plain(look_for_errors))
        } else if self.usart_tx_state !is Transfer_Completing {
            (self, Reaction { commands: acknowledge, next: look_for_errors })
        } else {
            let stopped = State { usart_tx_state: USARTStateTX::Idle, ..self };
            let commands = acknowledge.push(Command::clears(Field::dmat()));
            match self.tx_dma {
                Some(stream) => (
                    stopped,
                    Reaction {
                        commands,
                        next: Next::ReturnBuffer(stream, AfterReturn::Transmitted),
                    },
                ),
                None => (
                    State { tx_len: 0, ..stopped },
                    Reaction { commands, next: look_for_errors },
                ),
            }
        }
    }

    /// The status register was read for lost data. Reading the data register clears the error in
    /// any state, and a reception in progress ends.
    pub open spec fn overrun_read(self, status: u32) -> (State<P>, Reaction<P>) {
        if !Field::SR(SR::ORE).set_in(status) {
            (self, Reaction::plain(Next::Return(Ok(()))))
        } else if self.usart_rx_state !is DMA_Receiving {
            (
                self,
                Reaction {
                    commands: seq![Command::Touch(Register::DR)],
                    next: Next::Return(Ok(())),
                },
            )
        } else {
            let stopped = State { usart_rx_state: USARTStateRX::Idle, ..self };
            let commands = seq![
                Command::Touch(Register::DR),
                Command::clears(Field::dmar()),
                Command::clears(Field::eie()),
            ];
            match self.rx_dma {
                Some(stream) => (
                    stopped,
                    Reaction { commands, next: Next::AbortTransfer(stream, AfterAbort::Overrun) },
                ),
                None => (
                    State { rx_len: 0, ..stopped },
                    Reaction { commands, next: Next::Return(Ok(())) },
                ),
            }
        }
    }

    /// A stream was asked for the buffer of its finished transfer.
    pub open spec fn after_return(self, point: AfterReturn, buffer: Option<P::Buffer>) -> (
        State<P>,
        Reaction<P>,
    ) {
        match point {
            AfterReturn::Transmitted => self.transmitted(buffer),
            AfterReturn::Received => self.received(buffer),
        }
    }

    /// Bytes that the transfer was asked for that is aborted at `point`.
    pub open spec fn requested(self, point: AfterAbort) -> usize {
        match point {
            AfterAbort::Transmit(_) => self.tx_len,
            _ => self.rx_len,
        }
    }

    /// A stream was made to abort its transfer.
    pub open spec fn after_abort(
        self,
        point: AfterAbort,
        buffer: Option<P::Buffer>,
        remaining: u32,
    ) -> (State<P>, Reaction<P>) {
        match point {
            AfterAbort::Overrun => self.overrun(buffer, remaining),
            AfterAbort::Transmit(rcode) => self.transmit_aborted(rcode, buffer, remaining),
            AfterAbort::Receive(rcode, error) => self.receive_aborted(
                rcode,
                error,
                buffer,
                remaining,
            ),
        }
    }

    /// A client was told about its buffer.
    pub open spec fn after_client(self, point: AfterClient) -> (State<P>, Reaction<P>) {
        match point {
            AfterClient::Transmitted => (
                self,
                Reaction::plain(Next::Read(Register::CR3, AfterRead::ErrorInterrupt)),
            ),
            AfterClient::Received => (self, Reaction::plain(Next::Return(Ok(())))),
            AfterClient::DeferredTransmit => State {
                usart_tx_state: USARTStateTX::Idle,
                ..self
            }.deferred_receive(),
            AfterClient::DeferredReceive => (
                State { usart_rx_state: USARTStateRX::Idle, ..self },
                Reaction::plain(Next::Return(Ok(()))),
            ),
        }
    }

    /// The client of an aborted transmission is told, if there is one and its buffer is at hand;
    /// only after that the sender is idle. Then the receiver has its turn.
    pub open spec fn handle_deferred_call(self) -> (State<P>, Reaction<P>) {
        match self.usart_tx_state {
            USARTStateTX::Aborted(rcode) => match (self.tx_client, self.partial_tx_buffer) {
                (Some(client), Some(buffer)) => (
                    State { partial_tx_buffer: None, ..self },
                    Reaction::plain(
                        Next::TransmittedBuffer {
                            client,
                            buffer,
                            len: self.partial_tx_len,
                            rcode,
                            resume: AfterClient::DeferredTransmit,
                        },
                    ),
                ),
                _ => self.after_client(AfterClient::DeferredTransmit),
            },
            _ => self.deferred_receive(),
        }
    }

    /// The client of an aborted reception is told, if there is one and its buffer is at hand;
    /// only after that the receiver is idle.
    pub open spec fn deferred_receive(self) -> (State<P>, Reaction<P>) {
        match self.usart_rx_state {
            USARTStateRX::Aborted(rcode, error) => match (self.rx_client, self.partial_rx_buffer) {
                (Some(client), Some(buffer)) => (
                    State { partial_rx_buffer: None, ..self },
                    Reaction::plain(
                        Next::ReceivedBuffer {
                            client,
                            buffer,
                            len: self.partial_rx_len,
                            rcode,
                            error,
                            resume: AfterClient::DeferredReceive,
                        },
                    ),
                ),
                _ => (
                    State { usart_rx_state: USARTStateRX::Idle, ..self },
                    Reaction::plain(Next::Return(Ok(()))),
                ),
            },
            _ => (self, Reaction::plain(Next::Return(Ok(())))),
        }
    }
}

} // verus!
