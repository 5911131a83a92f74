//! The driver of a USART whose data is moved by DMA.
use crate::events::Event;
use crate::fields::{Field, FieldValue, BRR, CR1, CR2, CR3, SR};
use crate::platform::{Buffer, Dma1Peripheral, Dma2Peripheral, Peripheral, Platform};
use crate::rcc::{ClockRequest, PeripheralClockType, UsartClock, PCLK1, PCLK2};
use crate::registers::{Register, USART1_BASE, USART2_BASE, USART3_BASE};
use crate::state::{State, USARTStateRX, USARTStateTX};
use crate::turn::{AfterAbort, AfterClient, AfterRead, AfterReturn, Command, Next, Reaction, Turn};
use crate::uart::{Error, ErrorCode, Parameters};
use vstd::prelude::*;

verus! {

/// A USART.
pub struct Usart<P: Platform> {
    registers: u32,
    clock: UsartClock,
    tx_client: Option<P::TransmitClient>,
    rx_client: Option<P::ReceiveClient>,
    tx_dma: Option<P::Stream>,
    tx_dma_pid: P::Peripheral,
    rx_dma: Option<P::Stream>,
    rx_dma_pid: P::Peripheral,
    tx_len: usize,
    rx_len: usize,
    usart_tx_state: USARTStateTX,
    usart_rx_state: USARTStateRX,
    partial_tx_buffer: Option<P::Buffer>,
    partial_tx_len: usize,
    partial_rx_buffer: Option<P::Buffer>,
    partial_rx_len: usize,
}

/// The stream for sending, for use by `set_dma`.
pub struct TxDMA<P: Platform>(pub P::Stream);

/// The stream for receiving, for use by `set_dma`.
pub struct RxDMA<P: Platform>(pub P::Stream);

impl<P: Platform> View for Usart<P> {
    type V = State<P>;

    closed spec fn view(&self) -> State<P> {
        State {
            registers: self.registers,
            clock: self.clock,
            tx_client: self.tx_client,
            rx_client: self.rx_client,
            tx_dma: self.tx_dma,
            tx_dma_pid: self.tx_dma_pid,
            rx_dma: self.rx_dma,
            rx_dma_pid: self.rx_dma_pid,
            tx_len: self.tx_len,
            rx_len: self.rx_len,
            usart_tx_state: self.usart_tx_state,
            usart_rx_state: self.usart_rx_state,
            partial_tx_buffer: self.partial_tx_buffer,
            partial_tx_len: self.partial_tx_len,
            partial_rx_buffer: self.partial_rx_buffer,
            partial_rx_len: self.partial_rx_len,
        }
    }
}

impl<P: Platform<Peripheral = Dma1Peripheral>> Usart<P> {
    /// The driver of USART2.
    pub fn new_usart2() -> (usart: Self)
        ensures
            usart@.well_formed(),
            usart@ == State::<P>::fresh(
                USART2_BASE,
                UsartClock(PeripheralClockType::APB1(PCLK1::USART2)),
                Dma1Peripheral::USART2_TX,
                Dma1Peripheral::USART2_RX,
            ),
    {
        Self::new(
            USART2_BASE,
            UsartClock(PeripheralClockType::APB1(PCLK1::USART2)),
            Dma1Peripheral::USART2_TX,
            Dma1Peripheral::USART2_RX,
        )
    }

    /// The driver of USART3.
    pub fn new_usart3() -> (usart: Self)
        ensures
            usart@.well_formed(),
            usart@ == State::<P>::fresh(
                USART3_BASE,
                UsartClock(PeripheralClockType::APB1(PCLK1::USART3)),
                Dma1Peripheral::USART3_TX,
                Dma1Peripheral::USART3_RX,
            ),
    {
        Self::new(
            USART3_BASE,
            UsartClock(PeripheralClockType::APB1(PCLK1::USART3)),
            Dma1Peripheral::USART3_TX,
            Dma1Peripheral::USART3_RX,
        )
    }
}

impl<P: Platform<Peripheral = Dma2Peripheral>> Usart<P> {
    /// The driver of USART1.
    pub fn new_usart1() -> (usart: Self)
        ensures
            usart@.well_formed(),
            usart@ == State::<P>::fresh(
                USART1_BASE,
                UsartClock(PeripheralClockType::APB2(PCLK2::USART1)),
                Dma2Peripheral::USART1_TX,
                Dma2Peripheral::USART1_RX,
            ),
    {
        Self::new(
            USART1_BASE,
            UsartClock(PeripheralClockType::APB2(PCLK2::USART1)),
            Dma2Peripheral::USART1_TX,
            Dma2Peripheral::USART1_RX,
        )
    }
}

impl<P: Platform> Usart<P> {
    fn new(
        base_addr: u32,
        clock: UsartClock,
        tx_dma_pid: P::Peripheral,
        rx_dma_pid: P::Peripheral,
    ) -> (usart: Usart<P>)
        ensures
            usart@ == State::<P>::fresh(base_addr, clock, tx_dma_pid, rx_dma_pid),
    {
        Usart {
            registers: base_addr,
            clock,
            tx_client: None,
            rx_client: None,
            tx_dma: None,
            tx_dma_pid,
            rx_dma: None,
            rx_dma_pid,
            tx_len: 0,
            rx_len: 0,
            usart_tx_state: USARTStateTX::Idle,
            usart_rx_state: USARTStateRX::Idle,
            partial_tx_buffer: None,
            partial_tx_len: 0,
            partial_rx_buffer: None,
            partial_rx_len: 0,
        }
    }

    /// Address of the register block.
    pub fn registers(&self) -> (base_addr: u32)
        ensures
            base_addr == self@.registers,
    {
        self.registers
    }

    /// Asks whether the clock of the USART runs.
    pub fn is_enabled_clock(&self) -> (request: ClockRequest)
        ensures
            request == ClockRequest::IsEnabled(self@.clock.0),
    {
        self.clock.is_enabled()
    }

    /// Starts the clock of the USART.
    pub fn enable_clock(&self) -> (request: ClockRequest)
        ensures
            request == ClockRequest::Enable(self@.clock.0),
    {
        self.clock.enable()
    }

    /// Stops the clock of the USART.
    pub fn disable_clock(&self) -> (request: ClockRequest)
        ensures
            request == ClockRequest::Disable(self@.clock.0),
    {
        self.clock.disable()
    }

    /// Sets the streams that move the data.
    pub fn set_dma(&mut self, tx_dma: TxDMA<P>, rx_dma: RxDMA<P>)
        ensures
            final(self)@ == (State {
                tx_dma: Some(tx_dma.0),
                rx_dma: Some(rx_dma.0),
                ..old(self)@
            }),
    {
        self.tx_dma = Some(tx_dma.0);
        self.rx_dma = Some(rx_dma.0);
    }

    /// Sets who is told about sent buffers.
    pub fn set_transmit_client(&mut self, client: P::TransmitClient)
        ensures
            final(self)@ == (State { tx_client: Some(client), ..old(self)@ }),
    {
        self.tx_client = Some(client);
    }

    /// Sets who is told about filled buffers.
    pub fn set_receive_client(&mut self, client: P::ReceiveClient)
        ensures
            final(self)@ == (State { rx_client: Some(client), ..old(self)@ }),
    {
        self.rx_client = Some(client);
    }

    /// Sends `tx_len` bytes of `tx_data`. While the sender is not idle the buffer is handed
    /// back.
    pub fn transmit_buffer(&mut self, tx_data: P::Buffer, tx_len: usize) -> (result: Result<
        Turn<P>,
        (ErrorCode, P::Buffer),
    >)
        ensures
            result is Ok <==> old(self)@.usart_tx_state is Idle,
            match result {
                Ok(turn) => (final(self)@, turn@) == old(self)@.react(
                    Event::TransmitBuffer(tx_data, tx_len),
                ),
                Err((code, data)) => {
                    &&& code == ErrorCode::BUSY
                    &&& data == tx_data
                    &&& final(self)@ == old(self)@
                    &&& (final(self)@, Reaction::<P>::plain(Next::Return(Err(code)))) == old(
                        self,
                    )@.react(Event::TransmitBuffer(tx_data, tx_len))
                },
            },
    {
        if !matches!(self.usart_tx_state, USARTStateTX::Idle) {
            // there is an ongoing transmission, quit it
            return Err((ErrorCode::BUSY, tx_data));
        }
        let mut commands: Vec<Command<P>> = Vec::new();
        // setup and enable dma stream
        if let Some(stream) = self.tx_dma {
            self.tx_len = tx_len;
            commands.push(Command::DoTransfer { stream, buffer: tx_data, len: tx_len });
        }
        self.usart_tx_state = USARTStateTX::DMA_Transmitting;
        // enable dma tx on peripheral side
        commands.push(Self::enable_tx());
        let turn = Turn { commands, next: Next::Return(Ok(())) };
        assert(turn@.commands =~= old(self)@.transmit_buffer(tx_data, tx_len).1.commands);
        Ok(turn)
    }

    /// Words cannot be sent.
    pub fn transmit_word(&self, _word: u32) -> (result: Result<(), ErrorCode>)
        ensures
            result == Err::<(), ErrorCode>(ErrorCode::FAIL),
    {
        Err(ErrorCode::FAIL)
    }

    /// Stops sending. The call returns `Ok` if the sender is idle, and otherwise
    /// `Err(ErrorCode::BUSY)`: the client is told of the end in a deferred call.
    pub fn transmit_abort(&mut self) -> (turn: Turn<P>)
        ensures
            (final(self)@, turn@) == old(self)@.react(Event::TransmitAbort),
    {
        if !matches!(self.usart_tx_state, USARTStateTX::Idle) {
            self.abort_tx(Err(ErrorCode::CANCEL))
        } else {
            Turn::plain(Next::Return(Ok(())))
        }
    }

    /// Receives `rx_len` bytes into `rx_buffer`. While the receiver is not idle, and where the
    /// buffer is too short, it is handed back.
    pub fn receive_buffer(&mut self, rx_buffer: P::Buffer, rx_len: usize) -> (result: Result<
        Turn<P>,
        (ErrorCode, P::Buffer),
    >)
        ensures
            result is Ok <==> old(self)@.usart_rx_state is Idle && rx_len <= rx_buffer.size(),
            match result {
                Ok(turn) => (final(self)@, turn@) == old(self)@.react(
                    Event::ReceiveBuffer(rx_buffer, rx_len),
                ),
                Err((code, buffer)) => {
                    &&& code == if old(self)@.usart_rx_state is Idle {
                        ErrorCode::SIZE
                    } else {
                        ErrorCode::BUSY
                    }
                    &&& buffer == rx_buffer
                    &&& final(self)@ == old(self)@
                    &&& (final(self)@, Reaction::<P>::plain(Next::Return(Err(code)))) == old(
                        self,
                    )@.react(Event::ReceiveBuffer(rx_buffer, rx_len))
                },
            },
    {
        if !matches!(self.usart_rx_state, USARTStateRX::Idle) {
            return Err((ErrorCode::BUSY, rx_buffer));
        }
        if rx_len > rx_buffer.len() {
            return Err((ErrorCode::SIZE, rx_buffer));
        }
        let mut commands: Vec<Command<P>> = Vec::new();
        // setup and enable dma stream
        if let Some(stream) = self.rx_dma {
            self.rx_len = rx_len;
            commands.push(Command::DoTransfer { stream, buffer: rx_buffer, len: rx_len });
        }
        self.usart_rx_state = USARTStateRX::DMA_Receiving;
        commands.push(Self::enable_error_interrupt());
        // enable dma rx on the peripheral side
        commands.push(Self::enable_rx());
        let turn = Turn { commands, next: Next::Return(Ok(())) };
        assert(turn@.commands =~= old(self)@.receive_buffer(rx_buffer, rx_len).1.commands);
        Ok(turn)
    }

    /// Words cannot be received.
    pub fn receive_word(&self) -> (result: Result<(), ErrorCode>)
        ensures
            result == Err::<(), ErrorCode>(ErrorCode::FAIL),
    {
        Err(ErrorCode::FAIL)
    }

    /// Stops receiving. The call returns `Err(ErrorCode::BUSY)`: the client is told of the end in
    /// a deferred call.
    pub fn receive_abort(&mut self) -> (turn: Turn<P>)
        ensures
            (final(self)@, turn@) == old(self)@.react(Event::ReceiveAbort),
    {
        self.abort_rx(Err(ErrorCode::CANCEL), Error::Aborted)
    }

    /// Sets up the line for 115200bps 8N1 without hardware flow control.
    pub fn configure(&self, params: Parameters) -> (turn: Turn<P>)
        requires
            params.supported(),
        ensures
            (self@, turn@) == self@.react(Event::Configure),
    {
        let mut commands: Vec<Command<P>> = Vec::new();
        // Configure the word length - 0: 1 Start bit, 8 Data bits, n Stop bits
        commands.push(Command::Modify(Field::CR1(CR1::M).clear()));
        // Set the stop bit length - 00: 1 Stop bits
        commands.push(Command::Modify(FieldValue { field: Field::CR2(CR2::STOP), value: 0b00 }));
        // Set no parity
        commands.push(Command::Modify(Field::CR1(CR1::PCE).clear()));
        // Set the baud rate. By default OVER8 is 0 (oversampling by 16) and
        // PCLK1 is at 16Mhz. The desired baud rate is 115.2KBps. So according
        // to Table 149 of reference manual, the value for BRR is 8.6875
        // DIV_Fraction = 0.6875 * 16 = 11 = 0xB
        // DIV_Mantissa = 8 = 0x8
        commands.push(
            Command::Modify(FieldValue { field: Field::BRR(BRR::DIV_Fraction), value: 0xB }),
        );
        commands.push(
            Command::Modify(FieldValue { field: Field::BRR(BRR::DIV_Mantissa), value: 0x8 }),
        );
        // Enable transmit block
        commands.push(Command::Modify(Field::CR1(CR1::TE).set()));
        // Enable receive block
        commands.push(Command::Modify(Field::CR1(CR1::RE).set()));
        // Enable USART
        commands.push(Command::Modify(Field::CR1(CR1::UE).set()));
        let turn = Turn { commands, next: Next::Return(Ok(())) };
        assert(turn@.commands =~= Command::<P>::configuration());
        turn
    }

    /// Sends one byte without DMA, when the data register is free for it.
    // for use where a panic is reported
    pub fn send_byte(&self, byte: u8) -> (turn: Turn<P>)
        ensures
            (self@, turn@) == self@.react(Event::SendByte(byte)),
    {
        Turn::plain(Next::Read(Register::SR, AfterRead::SendByte(byte)))
    }

    /// Handles an interrupt of the USART.
    // According to section 25.4.13, we need to make sure that USART TC flag is
    // set before disabling the DMA TX on the peripheral side.
    pub fn handle_interrupt(&self) -> (turn: Turn<P>)
        ensures
            (self@, turn@) == self@.react(Event::Interrupt),
    {
        Turn::plain(Next::Read(Register::SR, AfterRead::TransmissionComplete))
    }

    /// A stream has finished the transfer for the peripheral `pid`.
    pub fn transfer_done(&mut self, pid: P::Peripheral) -> (turn: Turn<P>)
        ensures
            (final(self)@, turn@) == old(self)@.react(Event::TransferDone(pid)),
    {
        if pid.is(self.tx_dma_pid) {
            self.usart_tx_state = USARTStateTX::Transfer_Completing;
            let turn = Turn {
                commands: vec![Self::enable_transmit_complete_interrupt()],
                next: Next::Return(Ok(())),
            };
            assert(turn@.commands =~= old(self)@.transfer_done(pid).1.commands);
            turn
        } else if pid.is(self.rx_dma_pid) && matches!(
            self.usart_rx_state,
            USARTStateRX::DMA_Receiving
        ) {
            // In case of RX, we can call the client directly without having
            // to trigger an interrupt.
            let commands = vec![Self::disable_rx(), Self::disable_error_interrupt()];
            self.usart_rx_state = USARTStateRX::Idle;
            // get buffer
            let next = match self.rx_dma {
                Some(stream) => Next::ReturnBuffer(stream, AfterReturn::Received),
                None => self.received(None),
            };
            Turn { commands, next }
        } else {
            Turn::plain(Next::Return(Ok(())))
        }
    }

    /// Tells the clients about aborted transfers.
    pub fn handle_deferred_call(&mut self) -> (turn: Turn<P>)
        ensures
            (final(self)@, turn@) == old(self)@.react(Event::DeferredCall),
    {
        if let USARTStateTX::Aborted(rcode) = self.usart_tx_state {
            // alert client
            if let Some(client) = self.tx_client {
                if let Some(buffer) = self.partial_tx_buffer.take() {
                    return Turn::plain(
                        Next::TransmittedBuffer {
                            client,
                            buffer,
                            len: self.partial_tx_len,
                            rcode,
                            resume: AfterClient::DeferredTransmit,
                        },
                    );
                }
            }
            self.after_client(AfterClient::DeferredTransmit)
        } else {
            self.deferred_receive()
        }
    }

    /// Goes on with the content of a register that was read.
    pub fn after_read(&mut self, point: AfterRead, value: u32) -> (turn: Turn<P>)
        ensures
            (final(self)@, turn@) == old(self)@.react(Event::Read(point, value)),
    {
        match point {
            AfterRead::TransmissionComplete => self.status_read(value),
            AfterRead::ErrorInterrupt => {
                if Self::is_enabled_error_interrupt(value) {
                    Turn::plain(Next::Read(Register::SR, AfterRead::Overrun))
                } else {
                    Turn::plain(Next::Return(Ok(())))
                }
            },
            AfterRead::Overrun => self.overrun_read(value),
            AfterRead::SendByte(byte) => {
                // loop till TXE (Transmit data register empty) becomes 1
                if Field::SR(SR::TXE).is_set(value) {
                    let turn = Turn {
                        commands: vec![Command::Write(Register::DR, byte as u32)],
                        next: Next::Return(Ok(())),
                    };
                    assert(turn@.commands =~= old(self)@.after_read(point, value).1.commands);
                    turn
                } else {
                    Turn::plain(Next::Read(Register::SR, point))
                }
            },
        }
    }

    /// Goes on with the buffer of a stream's finished transfer.
    pub fn after_return(&mut self, point: AfterReturn, buffer: Option<P::Buffer>) -> (turn: Turn<P>)
        ensures
            (final(self)@, turn@) == old(self)@.react(Event::Returned(point, buffer)),
    {
        match point {
            AfterReturn::Transmitted => Turn::plain(self.transmitted(buffer)),
            AfterReturn::Received => Turn::plain(self.received(buffer)),
        }
    }

    /// Bytes that the transfer was asked for that is aborted at `point`.
    pub fn requested(&self, point: AfterAbort) -> (len: usize)
        ensures
            len == self@.requested(point),
    {
        match point {
            AfterAbort::Transmit(_) => self.tx_len,
            _ => self.rx_len,
        }
    }

    /// Goes on with the buffer of a stream's aborted transfer and the number of bytes that were
    /// not moved.
    pub fn after_abort(
        &mut self,
        point: AfterAbort,
        buffer: Option<P::Buffer>,
        remaining: u32,
    ) -> (turn: Turn<P>)
        requires
            remaining <= old(self)@.requested(point),
        ensures
            (final(self)@, turn@) == old(self)@.react(Event::Aborted(point, buffer, remaining)),
    {
        match point {
            AfterAbort::Overrun => Turn::plain(self.overrun(buffer, remaining)),
            AfterAbort::Transmit(rcode) => self.transmit_aborted(rcode, buffer, remaining),
            AfterAbort::Receive(rcode, error) => self.receive_aborted(
                rcode,
                error,
                buffer,
                remaining,
            ),
        }
    }

    /// Goes on after a client has run.
    pub fn after_client(&mut self, point: AfterClient) -> (turn: Turn<P>)
        ensures
            (final(self)@, turn@) == old(self)@.react(Event::ClientRan(point)),
    {
        match point {
            AfterClient::Transmitted => Turn::plain(
                Next::Read(Register::CR3, AfterRead::ErrorInterrupt),
            ),
            AfterClient::Received => Turn::plain(Next::Return(Ok(()))),
            AfterClient::DeferredTransmit => {
                self.usart_tx_state = USARTStateTX::Idle;
                self.deferred_receive()
            },
            AfterClient::DeferredReceive => {
                self.usart_rx_state = USARTStateRX::Idle;
                Turn::plain(Next::Return(Ok(())))
            },
        }
    }

    fn status_read(&mut self, status: u32) -> (turn: Turn<P>)
        ensures
            (final(self)@, turn@) == old(self)@.status_read(status),
    {
        if !Field::SR(SR::TC).is_set(status) {
            return Turn::plain(Next::Read(Register::CR3, AfterRead::ErrorInterrupt));
        }
        let mut commands = vec![
            Self::clear_transmit_complete(),
            Self::disable_transmit_complete_interrupt(),
        ];
        // Ignore if USARTStateTX is in some other state other than
        // Transfer_Completing.
        let next = if matches!(self.usart_tx_state, USARTStateTX::Transfer_Completing) {
            commands.push(Self::disable_tx());
            self.usart_tx_state = USARTStateTX::Idle;
            // get buffer
            match self.tx_dma {
                Some(stream) => Next::ReturnBuffer(stream, AfterReturn::Transmitted),
                None => self.transmitted(None),
            }
        } else {
            Next::Read(Register::CR3, AfterRead::ErrorInterrupt)
        };
        Turn { commands, next }
    }

    fn overrun_read(&mut self, status: u32) -> (turn: Turn<P>)
        ensures
            (final(self)@, turn@) == old(self)@.overrun_read(status),
    {
        if !Field::SR(SR::ORE).is_set(status) {
            return Turn::plain(Next::Return(Ok(())));
        }
        // clear overrun error
        let mut commands: Vec<Command<P>> = Vec::new();
        commands.push(Command::Touch(Register::DR));
        let next = if matches!(self.usart_rx_state, USARTStateRX::DMA_Receiving) {
            self.usart_rx_state = USARTStateRX::Idle;
            commands.push(Self::disable_rx());
            commands.push(Self::disable_error_interrupt());
            // get buffer
            match self.rx_dma {
                // aborting the transfer also disables the stream
                Some(stream) => Next::AbortTransfer(stream, AfterAbort::Overrun),
                None => self.overrun(None, 0),
            }
        } else {
            Next::Return(Ok(()))
        };
        let turn = Turn { commands, next };
        assert(turn@.commands =~= old(self)@.overrun_read(status).1.commands);
        turn
    }

    fn transmitted(&mut self, buffer: Option<P::Buffer>) -> (next: Next<P>)
        ensures
            (final(self)@, Reaction::plain(next)) == old(self)@.transmitted(buffer),
    {
        let len: usize = self.tx_len;
        self.tx_len = 0;
        // alert client
        if let (Some(client), Some(buffer)) = (self.tx_client, buffer) {
            Next::TransmittedBuffer {
                client,
                buffer,
                len,
                rcode: Ok(()),
                resume: AfterClient::Transmitted,
            }
        } else {
            Next::Read(Register::CR3, AfterRead::ErrorInterrupt)
        }
    }

    fn received(&mut self, buffer: Option<P::Buffer>) -> (next: Next<P>)
        ensures
            (final(self)@, Reaction::plain(next)) == old(self)@.received(buffer),
    {
        let length: usize = self.rx_len;
        self.rx_len = 0;
        // alert client
        if let (Some(client), Some(buffer)) = (self.rx_client, buffer) {
            Next::ReceivedBuffer {
                client,
                buffer,
                len: length,
                rcode: Ok(()),
                error: Error::NoError,
                resume: AfterClient::Received,
            }
        } else {
            Next::Return(Ok(()))
        }
    }

    fn overrun(&mut self, buffer: Option<P::Buffer>, remaining: u32) -> (next: Next<P>)
        requires
            remaining <= old(self)@.rx_len,
        ensures
            (final(self)@, Reaction::plain(next)) == old(self)@.overrun(buffer, remaining),
    {
        // The number actually received is the difference between
        // the requested number and the number remaining in DMA transfer.
        let count: usize = self.rx_len - remaining as usize;
        self.rx_len = 0;
        // alert client
        if let (Some(client), Some(buffer)) = (self.rx_client, buffer) {
            Next::ReceivedBuffer {
                client,
                buffer,
                len: count,
                rcode: Err(ErrorCode::CANCEL),
                error: Error::OverrunError,
                resume: AfterClient::Received,
            }
        } else {
            Next::Return(Ok(()))
        }
    }

    fn abort_tx(&mut self, rcode: Result<(), ErrorCode>) -> (turn: Turn<P>)
        ensures
            (final(self)@, turn@) == old(self)@.abort_tx(rcode),
    {
        let mut commands: Vec<Command<P>> = Vec::new();
        commands.push(Self::disable_tx());
        // get buffer
        let next = match self.tx_dma {
            // aborting the transfer also disables the stream
            Some(stream) => Next::AbortTransfer(stream, AfterAbort::Transmit(rcode)),
            None => self.transmit_aborted(rcode, None, 0).next,
        };
        Turn { commands, next }
    }

    fn transmit_aborted(
        &mut self,
        rcode: Result<(), ErrorCode>,
        buffer: Option<P::Buffer>,
        remaining: u32,
    ) -> (turn: Turn<P>)
        requires
            remaining <= old(self)@.tx_len,
        ensures
            (final(self)@, turn@) == old(self)@.transmit_aborted(rcode, buffer, remaining),
    {
        // The number actually transmitted is the difference between
        // the requested number and the number remaining in DMA transfer.
        let count: usize = self.tx_len - remaining as usize;
        self.tx_len = 0;
        if let Some(buf) = buffer {
            self.partial_tx_buffer = Some(buf);
            self.partial_tx_len = count;
            self.usart_tx_state = USARTStateTX::Aborted(rcode);
            let turn = Turn {
                commands: vec![Command::SetDeferredCall],
                next: Next::Return(Err(ErrorCode::BUSY)),
            };
            assert(turn@.commands =~= seq![Command::<P>::SetDeferredCall]);
            turn
        } else {
            self.usart_tx_state = USARTStateTX::Idle;
            Turn::plain(Next::Return(Err(ErrorCode::BUSY)))
        }
    }

    fn abort_rx(&mut self, rcode: Result<(), ErrorCode>, error: Error) -> (turn: Turn<P>)
        ensures
            (final(self)@, turn@) == old(self)@.abort_rx(rcode, error),
    {
        let mut commands: Vec<Command<P>> = Vec::new();
        commands.push(Self::disable_rx());
        commands.push(Self::disable_error_interrupt());
        // get buffer
        let next = match self.rx_dma {
            // aborting the transfer also disables the stream
            Some(stream) => Next::AbortTransfer(stream, AfterAbort::Receive(rcode, error)),
            None => self.receive_aborted(rcode, error, None, 0).next,
        };
        let turn = Turn { commands, next };
        assert(turn@.commands =~= old(self)@.abort_rx(rcode, error).1.commands);
        turn
    }

    fn receive_aborted(
        &mut self,
        rcode: Result<(), ErrorCode>,
        error: Error,
        buffer: Option<P::Buffer>,
        remaining: u32,
    ) -> (turn: Turn<P>)
        requires
            remaining <= old(self)@.rx_len,
        ensures
            (final(self)@, turn@) == old(self)@.receive_aborted(rcode, error, buffer, remaining),
    {
        // The number actually received is the difference between
        // the requested number and the number remaining in DMA transfer.
        let count: usize = self.rx_len - remaining as usize;
        self.rx_len = 0;
        if let Some(buf) = buffer {
            self.partial_rx_buffer = Some(buf);
            self.partial_rx_len = count;
            self.usart_rx_state = USARTStateRX::Aborted(rcode, error);
            let turn = Turn {
                commands: vec![Command::SetDeferredCall],
                next: Next::Return(Err(ErrorCode::BUSY)),
            };
            assert(turn@.commands =~= seq![Command::<P>::SetDeferredCall]);
            turn
        } else {
            self.usart_rx_state = USARTStateRX::Idle;
            Turn::plain(Next::Return(Err(ErrorCode::BUSY)))
        }
    }

    fn deferred_receive(&mut self) -> (turn: Turn<P>)
        ensures
            (final(self)@, turn@) == old(self)@.deferred_receive(),
    {
        if let USARTStateRX::Aborted(rcode, error) = self.usart_rx_state {
            // alert client
            if let Some(client) = self.rx_client {
                if let Some(buffer) = self.partial_rx_buffer.take() {
                    return Turn::plain(
                        Next::ReceivedBuffer {
                            client,
                            buffer,
                            len: self.partial_rx_len,
                            rcode,
                            error,
                            resume: AfterClient::DeferredReceive,
                        },
                    );
                }
            }
            self.usart_rx_state = USARTStateRX::Idle;
        }
        Turn::plain(Next::Return(Ok(())))
    }

    // enable DMA TX from the peripheral side
    fn enable_tx() -> (command: Command<P>)
        ensures
            command == Command::<P>::sets(Field::dmat()),
    {
        Command::Modify(Field::CR3(CR3::DMAT).set())
    }

    // disable DMA TX from the peripheral side
    fn disable_tx() -> (command: Command<P>)
        ensures
            command == Command::<P>::clears(Field::dmat()),
    {
        Command::Modify(Field::CR3(CR3::DMAT).clear())
    }

    // enable DMA RX from the peripheral side
    fn enable_rx() -> (command: Command<P>)
        ensures
            command == Command::<P>::sets(Field::dmar()),
    {
        Command::Modify(Field::CR3(CR3::DMAR).set())
    }

    // disable DMA RX from the peripheral side
    fn disable_rx() -> (command: Command<P>)
        ensures
            command == Command::<P>::clears(Field::dmar()),
    {
        Command::Modify(Field::CR3(CR3::DMAR).clear())
    }

    // enable interrupts for framing, overrun and noise errors
    fn enable_error_interrupt() -> (command: Command<P>)
        ensures
            command == Command::<P>::sets(Field::eie()),
    {
        Command::Modify(Field::CR3(CR3::EIE).set())
    }

    // disable interrupts for framing, overrun and noise errors
    fn disable_error_interrupt() -> (command: Command<P>)
        ensures
            command == Command::<P>::clears(Field::eie()),
    {
        Command::Modify(Field::CR3(CR3::EIE).clear())
    }

    // enable the interrupt for the end of a transmission
    fn enable_transmit_complete_interrupt() -> (command: Command<P>)
        ensures
            command == Command::<P>::sets(Field::tcie()),
    {
        Command::Modify(Field::CR1(CR1::TCIE).set())
    }

    // disable the interrupt for the end of a transmission
    fn disable_transmit_complete_interrupt() -> (command: Command<P>)
        ensures
            command == Command::<P>::clears(Field::tcie()),
    {
        Command::Modify(Field::CR1(CR1::TCIE).clear())
    }

    // clear the flag for the end of a transmission
    fn clear_transmit_complete() -> (command: Command<P>)
        ensures
            command == Command::<P>::clears(Field::SR(SR::TC)),
    {
        Command::Modify(Field::SR(SR::TC).clear())
    }

    // check if interrupts for framing, overrun and noise errors are enabled
    fn is_enabled_error_interrupt(cr3: u32) -> (enabled: bool)
        ensures
            enabled == Field::eie().set_in(cr3),
    {
        Field::CR3(CR3::EIE).is_set(cr3)
    }
}

} // verus!
