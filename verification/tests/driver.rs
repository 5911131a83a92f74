use stm32f4xx_usart::fields::{Field, BRR, CR1, CR2, CR3, SR};
use stm32f4xx_usart::platform::{Dma1Peripheral, Dma2Peripheral, Platform};
use stm32f4xx_usart::rcc::{ClockRequest, PeripheralClockType, PCLK1, PCLK2};
use stm32f4xx_usart::registers::{
    get_address_dr, Register, UsartRegisters, USART1_BASE, USART2_BASE, USART3_BASE,
};
use stm32f4xx_usart::turn::{AfterAbort, AfterClient, Command, Next, Turn};
use stm32f4xx_usart::uart::{Error, ErrorCode, Parameters, Parity, StopBits, Width};
use stm32f4xx_usart::usart::{RxDMA, TxDMA, Usart};

const TX: u8 = 6;
const RX: u8 = 5;

struct Board;

impl Platform for Board {
    type Peripheral = Dma1Peripheral;
    type Stream = u8;
    type Buffer = Vec<u8>;
    type TransmitClient = &'static str;
    type ReceiveClient = &'static str;
}

struct OtherBoard;

impl Platform for OtherBoard {
    type Peripheral = Dma2Peripheral;
    type Stream = u8;
    type Buffer = &'static mut [u8];
    type TransmitClient = u8;
    type ReceiveClient = u8;
}

/// Hardware, streams and clients around one driver.
struct Bench {
    usart: Usart<Board>,
    registers: UsartRegisters,
    streams: [Option<Vec<u8>>; 8],
    remaining: u32,
    deferred: bool,
    log: Vec<String>,
    in_client: Option<fn(&mut Bench)>,
}

fn zeros() -> UsartRegisters {
    UsartRegisters { sr: 0, dr: 0, brr: 0, cr1: 0, cr2: 0, cr3: 0, gtpr: 0 }
}

impl Bench {
    fn bare() -> Bench {
        Bench {
            usart: Usart::new_usart2(),
            registers: zeros(),
            streams: [None, None, None, None, None, None, None, None],
            remaining: 0,
            deferred: false,
            log: Vec::new(),
            in_client: None,
        }
    }

    fn new() -> Bench {
        let mut bench = Bench::bare();
        bench.usart.set_dma(TxDMA(TX), RxDMA(RX));
        bench.usart.set_transmit_client("tx");
        bench.usart.set_receive_client("rx");
        bench
    }

    fn command(&mut self, command: Command<Board>) {
        match command {
            Command::Modify(change) => self.registers.modify(change),
            Command::Write(register, value) => self.registers.write(register, value),
            Command::Touch(register) => self.log.push(format!("touch {:?}", register)),
            Command::DoTransfer { stream, buffer, len } => {
                self.log.push(format!("transfer {} {:?} {}", stream, buffer, len));
                self.streams[stream as usize] = Some(buffer);
            }
            Command::SetDeferredCall => self.deferred = true,
        }
    }

    fn client(&mut self) {
        if let Some(run) = self.in_client.take() {
            run(self);
        }
    }

    fn run(&mut self, first: Turn<Board>) -> Result<(), ErrorCode> {
        let mut turn = first;
        loop {
            for command in turn.commands {
                self.command(command);
            }
            turn = match turn.next {
                Next::Read(register, point) => {
                    let value = self.registers.read(register);
                    self.usart.after_read(point, value)
                }
                Next::ReturnBuffer(stream, point) => {
                    let buffer = self.streams[stream as usize].take();
                    self.usart.after_return(point, buffer)
                }
                Next::AbortTransfer(stream, point) => {
                    let buffer = self.streams[stream as usize].take();
                    assert!(self.remaining as usize <= self.usart.requested(point));
                    self.usart.after_abort(point, buffer, self.remaining)
                }
                Next::TransmittedBuffer { client, buffer, len, rcode, resume } => {
                    self.log.push(format!("{} sent {:?} {} {:?}", client, buffer, len, rcode));
                    self.client();
                    self.usart.after_client(resume)
                }
                Next::ReceivedBuffer { client, buffer, len, rcode, error, resume } => {
                    self.log.push(format!(
                        "{} received {:?} {} {:?} {:?}",
                        client, buffer, len, rcode, error
                    ));
                    self.client();
                    self.usart.after_client(resume)
                }
                Next::Return(result) => return result,
            };
        }
    }

    fn transmit(&mut self, data: Vec<u8>, len: usize) -> Result<(), (ErrorCode, Vec<u8>)> {
        match self.usart.transmit_buffer(data, len) {
            Ok(turn) => {
                assert_eq!(self.run(turn), Ok(()));
                Ok(())
            }
            Err(refused) => Err(refused),
        }
    }

    fn receive(&mut self, buffer: Vec<u8>, len: usize) -> Result<(), (ErrorCode, Vec<u8>)> {
        match self.usart.receive_buffer(buffer, len) {
            Ok(turn) => {
                assert_eq!(self.run(turn), Ok(()));
                Ok(())
            }
            Err(refused) => Err(refused),
        }
    }

    fn transmit_abort(&mut self) -> Result<(), ErrorCode> {
        let turn = self.usart.transmit_abort();
        self.run(turn)
    }

    fn receive_abort(&mut self) -> Result<(), ErrorCode> {
        let turn = self.usart.receive_abort();
        self.run(turn)
    }

    fn done(&mut self, pid: Dma1Peripheral) {
        let turn = self.usart.transfer_done(pid);
        assert_eq!(self.run(turn), Ok(()));
    }

    fn interrupt(&mut self) {
        let turn = self.usart.handle_interrupt();
        assert_eq!(self.run(turn), Ok(()));
    }

    fn deferred_call(&mut self) {
        self.deferred = false;
        let turn = self.usart.handle_deferred_call();
        assert_eq!(self.run(turn), Ok(()));
    }

    fn on(&self, field: Field) -> bool {
        self.registers.is_set(field)
    }
}

const DMAT: Field = Field::CR3(CR3::DMAT);
const DMAR: Field = Field::CR3(CR3::DMAR);
const EIE: Field = Field::CR3(CR3::EIE);
const TCIE: Field = Field::CR1(CR1::TCIE);
const TC: u32 = 0x40;
const ORE: u32 = 0x08;

fn settings() -> Parameters {
    Parameters {
        baud_rate: 115200,
        width: Width::Eight,
        parity: Parity::NoParity,
        stop_bits: StopBits::One,
        hw_flow_control: false,
    }
}

#[test]
fn transmission_goes_to_the_client_when_the_last_byte_is_sent() {
    let mut bench = Bench::new();
    assert_eq!(bench.transmit(vec![1, 2, 3, 4], 3), Ok(()));
    assert_eq!(bench.log, vec!["transfer 6 [1, 2, 3, 4] 3"]);
    assert_eq!(bench.registers.cr3, 0x80);
    assert!(!bench.on(TCIE));

    bench.done(Dma1Peripheral::USART2_TX);
    assert!(bench.on(TCIE));
    assert!(bench.on(DMAT));
    assert_eq!(bench.log.len(), 1);

    // not sent yet: nothing happens
    bench.registers.sr = 0xBF;
    bench.interrupt();
    assert!(bench.on(DMAT));
    assert!(bench.on(TCIE));
    assert_eq!(bench.log.len(), 1);

    bench.registers.sr = TC;
    bench.interrupt();
    assert_eq!(bench.log[1], "tx sent [1, 2, 3, 4] 3 Ok(())");
    assert_eq!(bench.log.len(), 2);
    assert_eq!(bench.registers, zeros());
    assert_eq!(bench.transmit(vec![9], 1), Ok(()));
}

#[test]
fn reception_goes_to_the_client_when_the_stream_is_done() {
    let mut bench = Bench::new();
    assert_eq!(bench.receive(vec![0, 0], 2), Ok(()));
    assert_eq!(bench.log, vec!["transfer 5 [0, 0] 2"]);
    assert_eq!(bench.registers.cr3, 0x41);

    bench.streams[RX as usize] = Some(vec![8, 9]);
    bench.done(Dma1Peripheral::USART2_RX);
    assert_eq!(bench.log[1], "rx received [8, 9] 2 Ok(()) NoError");
    assert_eq!(bench.registers, zeros());
    assert_eq!(bench.receive(vec![0], 1), Ok(()));
}

#[test]
fn a_second_transmission_is_busy_and_gives_the_buffer_back() {
    let mut bench = Bench::new();
    assert_eq!(bench.transmit(vec![1], 1), Ok(()));
    assert_eq!(bench.transmit(vec![2, 3], 2), Err((ErrorCode::BUSY, vec![2, 3])));
    bench.done(Dma1Peripheral::USART2_TX);
    assert_eq!(bench.transmit(vec![2, 3], 2), Err((ErrorCode::BUSY, vec![2, 3])));
    bench.registers.sr = TC;
    bench.interrupt();
    assert_eq!(bench.log[1], "tx sent [1] 1 Ok(())");
    assert_eq!(bench.transmit(vec![2, 3], 2), Ok(()));
}

#[test]
fn a_second_reception_is_busy_before_its_size_is_looked_at() {
    let mut bench = Bench::new();
    assert_eq!(bench.receive(vec![0, 0], 1), Ok(()));
    assert_eq!(bench.receive(vec![7], 2), Err((ErrorCode::BUSY, vec![7])));
    bench.done(Dma1Peripheral::USART2_RX);
    assert_eq!(bench.receive(vec![7], 2), Err((ErrorCode::SIZE, vec![7])));
    assert_eq!(bench.receive(vec![7], 1), Ok(()));
}

#[test]
fn reception_fits_exactly_or_is_refused() {
    let mut bench = Bench::new();
    assert_eq!(bench.receive(vec![], 1), Err((ErrorCode::SIZE, vec![])));
    assert_eq!(bench.registers, zeros());
    assert!(bench.log.is_empty());
    assert_eq!(bench.receive(vec![], 0), Ok(()));
}

#[test]
fn words_fail() {
    let bench = Bench::new();
    assert_eq!(bench.usart.transmit_word(0x41), Err(ErrorCode::FAIL));
    assert_eq!(bench.usart.receive_word(), Err(ErrorCode::FAIL));
}

#[test]
fn aborting_an_idle_sender_does_nothing() {
    let mut bench = Bench::new();
    assert_eq!(bench.transmit_abort(), Ok(()));
    assert!(!bench.deferred);
    assert!(bench.log.is_empty());
}

#[test]
fn aborted_transmission_reaches_the_client_in_the_deferred_call() {
    let mut bench = Bench::new();
    assert_eq!(bench.transmit(vec![1, 2, 3, 4, 5], 5), Ok(()));
    bench.remaining = 2;
    assert_eq!(bench.transmit_abort(), Err(ErrorCode::BUSY));
    assert!(bench.deferred);
    assert!(!bench.on(DMAT));
    assert_eq!(bench.log.len(), 1);
    assert_eq!(bench.transmit(vec![6], 1), Err((ErrorCode::BUSY, vec![6])));

    bench.deferred_call();
    assert_eq!(bench.log[1], "tx sent [1, 2, 3, 4, 5] 3 Err(CANCEL)");
    assert_eq!(bench.transmit(vec![6], 1), Ok(()));

    // nothing is left to tell
    bench.deferred_call();
    assert_eq!(bench.log.len(), 3);
    assert_eq!(bench.transmit(vec![7], 1), Err((ErrorCode::BUSY, vec![7])));
}

#[test]
fn aborted_reception_reaches_the_client_in_the_deferred_call() {
    let mut bench = Bench::new();
    assert_eq!(bench.receive(vec![0, 0, 0], 3), Ok(()));
    bench.remaining = 3;
    assert_eq!(bench.receive_abort(), Err(ErrorCode::BUSY));
    assert!(bench.deferred);
    assert_eq!(bench.registers.cr3, 0);
    assert_eq!(bench.receive(vec![1], 1), Err((ErrorCode::BUSY, vec![1])));

    bench.deferred_call();
    assert_eq!(bench.log[1], "rx received [0, 0, 0] 0 Err(CANCEL) Aborted");
    assert_eq!(bench.receive(vec![1], 1), Ok(()));
}

#[test]
fn aborting_an_idle_receiver_is_busy_but_tells_nobody() {
    let mut bench = Bench::new();
    assert_eq!(bench.receive_abort(), Err(ErrorCode::BUSY));
    assert!(!bench.deferred);
    assert_eq!(bench.receive(vec![1], 1), Ok(()));
    assert_eq!(bench.log, vec!["transfer 5 [1] 1"]);
}

#[test]
fn both_aborted_clients_are_told_the_sender_first() {
    let mut bench = Bench::new();
    assert_eq!(bench.transmit(vec![1], 1), Ok(()));
    assert_eq!(bench.receive(vec![2], 1), Ok(()));
    assert_eq!(bench.receive_abort(), Err(ErrorCode::BUSY));
    assert_eq!(bench.transmit_abort(), Err(ErrorCode::BUSY));
    bench.deferred_call();
    assert_eq!(bench.log[2], "tx sent [1] 1 Err(CANCEL)");
    assert_eq!(bench.log[3], "rx received [2] 1 Err(CANCEL) Aborted");
    assert_eq!(bench.log.len(), 4);
}

#[test]
fn overrun_cancels_a_reception_with_what_has_come() {
    let mut bench = Bench::new();
    assert_eq!(bench.receive(vec![4, 5, 6, 7], 4), Ok(()));
    bench.registers.sr = ORE;
    bench.remaining = 1;
    bench.interrupt();
    assert_eq!(bench.log[1], "touch DR");
    assert_eq!(bench.log[2], "rx received [4, 5, 6, 7] 3 Err(CANCEL) OverrunError");
    assert_eq!(bench.registers.cr3, 0);
    assert_eq!(bench.receive(vec![1], 1), Ok(()));
}

#[test]
fn overrun_is_not_looked_at_while_error_interrupts_are_off() {
    let mut bench = Bench::new();
    bench.registers.sr = ORE;
    bench.interrupt();
    assert!(bench.log.is_empty());
    bench.registers.cr3 = 0x1;
    bench.interrupt();
    assert_eq!(bench.log, vec!["touch DR"]);
    assert_eq!(bench.registers.cr3, 0x1);
}

#[test]
fn one_interrupt_ends_both_directions() {
    let mut bench = Bench::new();
    assert_eq!(bench.transmit(vec![1], 1), Ok(()));
    assert_eq!(bench.receive(vec![2, 3], 2), Ok(()));
    bench.done(Dma1Peripheral::USART2_TX);
    // writing TC back as zero leaves the other flags
    bench.registers.sr = TC | ORE;
    bench.interrupt();
    assert_eq!(bench.log[2], "tx sent [1] 1 Ok(())");
    assert_eq!(bench.log[3], "touch DR");
    assert_eq!(bench.log[4], "rx received [2, 3] 2 Err(CANCEL) OverrunError");
    assert_eq!(bench.registers.sr, ORE);
    assert_eq!(bench.registers.cr1, 0);
    assert_eq!(bench.registers.cr3, 0);
}

#[test]
fn complete_transmission_is_acknowledged_in_any_state() {
    let mut bench = Bench::new();
    assert_eq!(bench.transmit(vec![1], 1), Ok(()));
    bench.registers.sr = TC;
    bench.registers.cr1 = TC;
    bench.interrupt();
    assert_eq!(bench.registers.sr, 0);
    assert_eq!(bench.registers.cr1, 0);
    assert!(bench.on(DMAT));
    assert_eq!(bench.log.len(), 1);
    assert_eq!(bench.transmit(vec![2], 1), Err((ErrorCode::BUSY, vec![2])));
}

#[test]
fn other_peripherals_are_ignored() {
    let mut bench = Bench::new();
    assert_eq!(bench.receive(vec![1], 1), Ok(()));
    bench.done(Dma1Peripheral::USART3_RX);
    bench.done(Dma1Peripheral::USART3_TX);
    assert_eq!(bench.log.len(), 1);
    assert_eq!(bench.registers.cr3, 0x41);
    assert_eq!(bench.registers.cr1, 0);
}

#[test]
fn a_stream_done_with_receiving_is_ignored_while_idle() {
    let mut bench = Bench::new();
    bench.streams[RX as usize] = Some(vec![1]);
    bench.done(Dma1Peripheral::USART2_RX);
    assert!(bench.log.is_empty());
    assert_eq!(bench.streams[RX as usize], Some(vec![1]));
}

#[test]
fn without_streams_the_states_still_move() {
    let mut bench = Bench::bare();
    bench.usart.set_transmit_client("tx");
    bench.usart.set_receive_client("rx");
    assert_eq!(bench.transmit(vec![1], 1), Ok(()));
    assert!(bench.on(DMAT));
    assert_eq!(bench.transmit(vec![1], 1), Err((ErrorCode::BUSY, vec![1])));
    assert_eq!(bench.transmit_abort(), Err(ErrorCode::BUSY));
    assert!(!bench.on(DMAT));
    assert!(!bench.deferred);
    assert_eq!(bench.transmit_abort(), Ok(()));

    assert_eq!(bench.receive(vec![1], 1), Ok(()));
    assert!(bench.on(DMAR) && bench.on(EIE));
    bench.done(Dma1Peripheral::USART2_RX);
    assert!(!bench.on(DMAR) && !bench.on(EIE));

    assert_eq!(bench.receive(vec![1], 1), Ok(()));
    bench.registers.sr = ORE;
    bench.interrupt();
    assert_eq!(bench.registers.cr3, 0);

    assert_eq!(bench.receive(vec![1], 1), Ok(()));
    assert_eq!(bench.receive_abort(), Err(ErrorCode::BUSY));
    assert!(!bench.deferred);

    assert_eq!(bench.transmit(vec![1], 1), Ok(()));
    bench.done(Dma1Peripheral::USART2_TX);
    bench.registers.sr = TC;
    bench.interrupt();
    assert_eq!(bench.registers, zeros());
    assert_eq!(bench.log, vec!["touch DR"]);
}

#[test]
fn without_clients_the_transfers_still_end() {
    let mut bench = Bench::bare();
    bench.usart.set_dma(TxDMA(TX), RxDMA(RX));
    assert_eq!(bench.transmit(vec![1], 1), Ok(()));
    bench.done(Dma1Peripheral::USART2_TX);
    bench.registers.sr = TC;
    bench.interrupt();
    assert_eq!(bench.receive(vec![2], 1), Ok(()));
    bench.done(Dma1Peripheral::USART2_RX);
    assert_eq!(bench.log.len(), 2);

    // the buffer of an aborted transfer waits for nobody, but the sides become idle
    assert_eq!(bench.transmit(vec![3], 1), Ok(()));
    assert_eq!(bench.receive(vec![4], 1), Ok(()));
    assert_eq!(bench.transmit_abort(), Err(ErrorCode::BUSY));
    assert_eq!(bench.receive_abort(), Err(ErrorCode::BUSY));
    bench.deferred_call();
    assert_eq!(bench.log.len(), 4);
    assert_eq!(bench.transmit(vec![5], 1), Ok(()));
    assert_eq!(bench.receive(vec![6], 1), Ok(()));
}

#[test]
fn a_client_may_send_again_while_it_is_told_of_a_finished_transmission() {
    let mut bench = Bench::new();
    assert_eq!(bench.transmit(vec![1], 1), Ok(()));
    bench.done(Dma1Peripheral::USART2_TX);
    bench.registers.sr = TC;
    bench.in_client = Some(|bench| assert_eq!(bench.transmit(vec![2], 1), Ok(())));
    bench.interrupt();
    assert_eq!(bench.log[1], "tx sent [1] 1 Ok(())");
    assert_eq!(bench.log[2], "transfer 6 [2] 1");
    assert!(bench.on(DMAT));
    assert_eq!(bench.transmit(vec![3], 1), Err((ErrorCode::BUSY, vec![3])));
}

#[test]
fn a_client_may_not_send_again_while_it_is_told_of_an_aborted_transmission() {
    let mut bench = Bench::new();
    assert_eq!(bench.transmit(vec![1], 1), Ok(()));
    assert_eq!(bench.transmit_abort(), Err(ErrorCode::BUSY));
    bench.in_client = Some(|bench| {
        assert_eq!(bench.transmit(vec![2], 1), Err((ErrorCode::BUSY, vec![2])));
    });
    bench.deferred_call();
    assert!(bench.in_client.is_none());
    assert_eq!(bench.transmit(vec![2], 1), Ok(()));
}

#[test]
fn a_client_may_receive_again_while_it_is_told_of_a_finished_reception() {
    let mut bench = Bench::new();
    assert_eq!(bench.receive(vec![1], 1), Ok(()));
    bench.in_client = Some(|bench| assert_eq!(bench.receive(vec![2], 1), Ok(())));
    bench.done(Dma1Peripheral::USART2_RX);
    assert_eq!(bench.log[2], "transfer 5 [2] 1");
    assert_eq!(bench.registers.cr3, 0x41);
}

#[test]
fn a_byte_is_sent_once_there_is_room() {
    let bench = Bench::new();
    let mut usart = bench.usart;
    let turn = usart.send_byte(0xA5);
    assert!(turn.commands.is_empty());
    let point = match turn.next {
        Next::Read(Register::SR, point) => point,
        _ => panic!("the status is to be read"),
    };
    let turn = usart.after_read(point, 0xFF7F);
    assert!(turn.commands.is_empty());
    assert!(matches!(turn.next, Next::Read(Register::SR, _)));
    let turn = usart.after_read(point, 0x80);
    assert_eq!(turn.commands.len(), 1);
    assert!(matches!(turn.commands[0], Command::Write(Register::DR, 0xA5)));
    assert!(matches!(turn.next, Next::Return(Ok(()))));
}

#[test]
fn configuring_sets_the_line_up() {
    let mut bench = Bench::new();
    bench.registers = UsartRegisters {
        sr: !0,
        dr: !0,
        brr: !0,
        cr1: !0,
        cr2: !0,
        cr3: !0,
        gtpr: !0,
    };
    let turn = bench.usart.configure(settings());
    assert_eq!(bench.run(turn), Ok(()));
    assert_eq!(bench.registers.brr, 0xFFFF_008B);
    assert_eq!(bench.registers.cr1, 0xFFFF_EBFF);
    assert_eq!(bench.registers.cr2, 0xFFFF_CFFF);
    assert_eq!(bench.registers.cr3, !0);
    assert_eq!(bench.registers.sr, !0);

    bench.registers = zeros();
    let turn = bench.usart.configure(settings());
    assert_eq!(bench.run(turn), Ok(()));
    assert_eq!(bench.registers, UsartRegisters { brr: 0x8B, cr1: 0x200C, ..zeros() });
    assert!(!bench.on(Field::CR2(CR2::STOP)));
    assert!(bench.on(Field::BRR(BRR::DIV_Mantissa)));
}

#[test]
fn only_one_setting_is_supported() {
    assert!(settings().is_supported());
    assert!(!Parameters { baud_rate: 9600, ..settings() }.is_supported());
    assert!(!Parameters { width: Width::Seven, ..settings() }.is_supported());
    assert!(!Parameters { parity: Parity::Even, ..settings() }.is_supported());
    assert!(!Parameters { stop_bits: StopBits::Two, ..settings() }.is_supported());
    assert!(!Parameters { hw_flow_control: true, ..settings() }.is_supported());
}

#[test]
fn each_usart_has_its_registers_and_its_clock() {
    let one: Usart<OtherBoard> = Usart::new_usart1();
    let two: Usart<Board> = Usart::new_usart2();
    let three: Usart<Board> = Usart::new_usart3();
    assert_eq!(one.registers(), USART1_BASE);
    assert_eq!(two.registers(), USART2_BASE);
    assert_eq!(three.registers(), USART3_BASE);
    assert_eq!(
        one.enable_clock(),
        ClockRequest::Enable(PeripheralClockType::APB2(PCLK2::USART1))
    );
    assert_eq!(
        two.disable_clock(),
        ClockRequest::Disable(PeripheralClockType::APB1(PCLK1::USART2))
    );
    assert_eq!(
        three.is_enabled_clock(),
        ClockRequest::IsEnabled(PeripheralClockType::APB1(PCLK1::USART3))
    );
    assert_eq!(get_address_dr(one.registers()), 0x40011004);
}

#[test]
fn each_usart_answers_to_its_own_names() {
    let mut one: Usart<OtherBoard> = Usart::new_usart1();
    let turn = one.transfer_done(Dma2Peripheral::USART1_RX);
    assert!(turn.commands.is_empty());
    let turn = one.transfer_done(Dma2Peripheral::USART1_TX);
    assert_eq!(turn.commands.len(), 1);

    let mut three: Usart<Board> = Usart::new_usart3();
    let turn = three.transfer_done(Dma1Peripheral::USART2_TX);
    assert!(turn.commands.is_empty());
    let turn = three.transfer_done(Dma1Peripheral::USART3_TX);
    assert_eq!(turn.commands.len(), 1);
}

#[test]
fn static_memory_is_a_buffer() {
    let mut usart: Usart<OtherBoard> = Usart::new_usart1();
    usart.set_dma(TxDMA(7), RxDMA(2));
    let memory: &'static mut [u8] = Box::leak(Box::new([0u8; 4]));
    let refused = match usart.receive_buffer(memory, 5) {
        Ok(_) => panic!("too short"),
        Err((code, buffer)) => {
            assert_eq!(code, ErrorCode::SIZE);
            buffer
        }
    };
    let turn = match usart.receive_buffer(refused, 4) {
        Ok(turn) => turn,
        Err(_) => panic!("long enough"),
    };
    assert_eq!(turn.commands.len(), 3);
    assert!(matches!(turn.commands[0], Command::DoTransfer { stream: 2, len: 4, .. }));
}

#[test]
fn an_abort_counts_from_the_length_of_its_own_side() {
    let mut bench = Bench::new();
    assert_eq!(bench.transmit(vec![0; 9], 9), Ok(()));
    assert_eq!(bench.receive(vec![0; 4], 4), Ok(()));
    assert_eq!(bench.usart.requested(AfterAbort::Transmit(Err(ErrorCode::CANCEL))), 9);
    assert_eq!(bench.usart.requested(AfterAbort::Overrun), 4);
    assert_eq!(
        bench.usart.requested(AfterAbort::Receive(Err(ErrorCode::CANCEL), Error::Aborted)),
        4
    );
}

#[test]
fn after_a_finished_transmission_errors_are_looked_for() {
    let mut bench = Bench::new();
    let turn = bench.usart.after_client(AfterClient::Transmitted);
    assert!(turn.commands.is_empty());
    assert!(matches!(turn.next, Next::Read(Register::CR3, _)));
    let turn = bench.usart.after_client(AfterClient::Received);
    assert!(matches!(turn.next, Next::Return(Ok(()))));
}

#[test]
fn flags_are_where_the_manual_has_them() {
    assert!(Field::SR(SR::TC).is_set(TC));
    assert!(Field::SR(SR::ORE).is_set(ORE));
    assert!(!Field::SR(SR::TC).is_set(!TC));
}

#[test]
fn the_directions_do_not_disturb_each_other() {
    let mut bench = Bench::new();
    assert_eq!(bench.transmit(vec![1, 2], 2), Ok(()));
    assert_eq!(bench.receive(vec![3, 4, 5], 3), Ok(()));
    assert_eq!(bench.registers.cr3, 0xC1);
    bench.remaining = 1;
    assert_eq!(bench.transmit_abort(), Err(ErrorCode::BUSY));
    assert_eq!(bench.registers.cr3, 0x41);
    bench.deferred_call();
    assert_eq!(bench.log[2], "tx sent [1, 2] 1 Err(CANCEL)");

    assert_eq!(bench.transmit(vec![6], 1), Ok(()));
    bench.done(Dma1Peripheral::USART2_RX);
    assert_eq!(bench.log[4], "rx received [3, 4, 5] 3 Ok(()) NoError");
    assert_eq!(bench.registers.cr3, 0x80);
    bench.done(Dma1Peripheral::USART2_TX);
    bench.registers.sr = TC;
    bench.interrupt();
    assert_eq!(bench.log[5], "tx sent [6] 1 Ok(())");
    assert_eq!(bench.registers, zeros());
}

#[test]
fn an_interrupt_sees_what_a_client_has_done_in_it() {
    let mut bench = Bench::new();
    assert_eq!(bench.transmit(vec![1], 1), Ok(()));
    bench.done(Dma1Peripheral::USART2_TX);
    bench.registers.sr = TC;
    bench.in_client = Some(|bench| {
        assert_eq!(bench.receive(vec![2, 3], 2), Ok(()));
        bench.registers.sr = ORE;
    });
    bench.interrupt();
    assert_eq!(bench.log[1], "tx sent [1] 1 Ok(())");
    assert_eq!(bench.log[2], "transfer 5 [2, 3] 2");
    assert_eq!(bench.log[3], "touch DR");
    assert_eq!(bench.log[4], "rx received [2, 3] 2 Err(CANCEL) OverrunError");
    assert_eq!(bench.registers.cr3, 0);
}

#[test]
fn the_divisor_is_the_nearest_for_the_bus_clock() {
    let mut bench = Bench::new();
    let turn = bench.usart.configure(settings());
    assert_eq!(bench.run(turn), Ok(()));
    let chosen = bench.registers.brr as i64;
    assert_eq!(chosen, 139);
    let off = |divisor: i64| (115_200 * divisor - 16_000_000).abs();
    assert!(off(chosen) < off(chosen - 1));
    assert!(off(chosen) < off(chosen + 1));
}

#[test]
fn a_length_left_over_on_an_idle_side_does_not_matter() {
    let mut bench = Bench::new();
    assert_eq!(bench.transmit(vec![1], 1), Ok(()));
    assert_eq!(bench.transmit_abort(), Err(ErrorCode::BUSY));
    bench.in_client = Some(|bench| {
        assert_eq!(bench.transmit_abort(), Err(ErrorCode::BUSY));
        assert_eq!(bench.transmit(vec![2; 7], 7), Ok(()));
    });
    bench.deferred_call();
    let transmit = AfterAbort::Transmit(Err(ErrorCode::CANCEL));
    assert_eq!(bench.usart.requested(transmit), 7);

    assert_eq!(bench.transmit(vec![3, 4], 2), Ok(()));
    bench.done(Dma1Peripheral::USART2_TX);
    bench.registers.sr = TC;
    bench.interrupt();
    assert_eq!(bench.log.last().unwrap(), "tx sent [3, 4] 2 Ok(())");
    assert_eq!(bench.usart.requested(transmit), 0);
}
