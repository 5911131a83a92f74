//! How the registers follow what the driver does.
use crate::events::Event;
use crate::fields::{Field, FieldValue, BRR, CR1, CR2, CR3, SR};
use crate::platform::Platform;
use crate::registers::{Register, UsartRegisters};
use crate::state::{State, USARTStateRX, USARTStateTX};
use crate::turn::{AfterAbort, AfterClient, AfterRead, AfterReturn, Command, Next};
use vstd::prelude::*;

verus! {

/// What a field holds once the line is configured: the settings where they concern it, else what
/// it held before.
pub open spec fn configured(block: UsartRegisters, field: Field) -> u32 {
    match field {
        Field::CR1(CR1::M) => 0,
        Field::CR2(CR2::STOP) => 0,
        Field::CR1(CR1::PCE) => 0,
        Field::BRR(BRR::DIV_Fraction) => 0xB,
        Field::BRR(BRR::DIV_Mantissa) => 0x8,
        Field::CR1(CR1::TE) => 1,
        Field::CR1(CR1::RE) => 1,
        Field::CR1(CR1::UE) => 1,
        _ => block.field(field),
    }
}

/// Configuring gives the line eight data bits, one stop bit, no parity and the divisor for
/// 115200bps, enables the transmitter, the receiver and the USART, and changes no other field. The
/// registers that have none of these fields hold what they held.
pub proof fn law_configuration<P: Platform>(block: UsartRegisters, field: Field)
    ensures
        ({
            let later = block.after(Command::<P>::configuration());
            &&& later.field(field) == configured(block, field)
            &&& later.sr == block.sr
            &&& later.dr == block.dr
            &&& later.cr3 == block.cr3
            &&& later.gtpr == block.gtpr
        }),
{
    let commands = Command::<P>::configuration();
    let m = Field::CR1(CR1::M).clear();
    let stop = Field::CR2(CR2::STOP).clear();
    let pce = Field::CR1(CR1::PCE).clear();
    let fraction = FieldValue { field: Field::BRR(BRR::DIV_Fraction), value: 0xB };
    let mantissa = FieldValue { field: Field::BRR(BRR::DIV_Mantissa), value: 0x8 };
    let te = Field::CR1(CR1::TE).set();
    let re = Field::CR1(CR1::RE).set();
    let ue = Field::CR1(CR1::UE).set();
    let b1 = block.modified(m);
    let b2 = b1.modified(stop);
    let b3 = b2.modified(pce);
    let b4 = b3.modified(fraction);
    let b5 = b4.modified(mantissa);
    let b6 = b5.modified(te);
    let b7 = b6.modified(re);
    let b8 = b7.modified(ue);
    reveal_with_fuel(UsartRegisters::after, 9);
    assert(block.after(commands) == b8);
    lemma_one_field(block, m, field);
    lemma_one_field(b1, stop, field);
    lemma_one_field(b2, pce, field);
    lemma_one_field(b3, fraction, field);
    lemma_one_field(b4, mantissa, field);
    lemma_one_field(b5, te, field);
    lemma_one_field(b6, re, field);
    lemma_one_field(b7, ue, field);
    assert(((1u32 << 1u32) - 1) as u32 == 1 && 0u32 & (((1u32 << 1u32) - 1) as u32) == 0 && 0u32
        & (((1u32 << 2u32) - 1) as u32) == 0 && 0xBu32 & (((1u32 << 4u32) - 1) as u32) == 0xB
        && 0x8u32 & (((1u32 << 12u32) - 1) as u32) == 0x8 && 1u32 & 1u32 == 1) by (bit_vector);
}

proof fn lemma_one_field(block: UsartRegisters, change: FieldValue, field: Field)
    ensures
        block.modified(change).field(field) == if field == change.field {
            change.value & change.field.mask()
        } else {
            block.field(field)
        },
{
    if field == change.field {
        crate::fields::law_modify_reads_back(change, block.content(change.field.register()));
    } else {
        crate::registers::law_modify_changes_one_field(block, change, field);
    }
}

/// Clock of the peripheral bus in hertz, as it is after reset.
pub open spec fn bus_clock() -> int {
    16_000_000
}

/// With the divisor that configuring sets, in sixteenths, and oversampling by sixteen, no other
/// divisor brings the line nearer to 115200bps.
pub proof fn law_divisor_is_nearest(block: UsartRegisters, divisor: int)
    ensures
        ({
            let chosen = 16 * configured(block, Field::BRR(BRR::DIV_Mantissa)) + configured(
                block,
                Field::BRR(BRR::DIV_Fraction),
            );
            &&& chosen == 139
            &&& distance(chosen) <= distance(divisor)
        }),
{
}

/// How far the bus clock is from what the divisor needs for 115200bps, in hertz.
pub open spec fn distance(divisor: int) -> int {
    let needed = 115200 * divisor;
    if needed < bus_clock() {
        bus_clock() - needed
    } else {
        needed - bus_clock()
    }
}

/// What a call waits for that matters to how state and registers fit together.
pub enum Wait {
    /// Nothing of that kind.
    Nothing,
    /// The buffer of a finished transmission.
    Sent,
    /// The buffer of a finished reception.
    Filled,
    /// The buffer into which data was lost.
    Lost,
    /// The transmit stream is to stop.
    TransmitStop,
    /// The receive stream is to stop.
    ReceiveStop,
    /// A client is told of an aborted transmission.
    ToldTransmit,
    /// A client is told of an aborted reception.
    ToldReceive,
}

impl AfterClient {
    /// What a call waits for.
    pub open spec fn wait(self) -> Wait {
        match self {
            AfterClient::DeferredTransmit => Wait::ToldTransmit,
            AfterClient::DeferredReceive => Wait::ToldReceive,
            _ => Wait::Nothing,
        }
    }
}

impl AfterReturn {
    /// What a call waits for.
    pub open spec fn wait(self) -> Wait {
        match self {
            AfterReturn::Transmitted => Wait::Sent,
            AfterReturn::Received => Wait::Filled,
        }
    }
}

impl AfterAbort {
    /// What a call waits for.
    pub open spec fn wait(self) -> Wait {
        match self {
            AfterAbort::Overrun => Wait::Lost,
            AfterAbort::Transmit(_) => Wait::TransmitStop,
            AfterAbort::Receive(..) => Wait::ReceiveStop,
        }
    }
}

impl<P: Platform> Next<P> {
    /// What a call waits for.
    pub open spec fn wait(self) -> Wait {
        match self {
            Next::ReturnBuffer(_, point) => point.wait(),
            Next::AbortTransfer(_, point) => point.wait(),
            Next::TransmittedBuffer { resume, .. } => resume.wait(),
            Next::ReceivedBuffer { resume, .. } => resume.wait(),
            _ => Wait::Nothing,
        }
    }
}

impl<P: Platform> Event<P> {
    /// What has been waited for that this call answers.
    pub open spec fn wait(self) -> Wait {
        match self {
            Event::Returned(point, _) => point.wait(),
            Event::Aborted(point, _, _) => point.wait(),
            Event::ClientRan(point) => point.wait(),
            _ => Wait::Nothing,
        }
    }
}

impl<P: Platform> State<P> {
    /// The sender and the registers fit together: DMA for sending is on while a stream sends and
    /// off while nothing is sent, the interrupt is on that a completing transmission needs, and a
    /// length is noted only while there is a transmission.
    pub open spec fn sender_fits(self, block: UsartRegisters, wait: Wait) -> bool {
        &&& match self.usart_tx_state {
            USARTStateTX::Idle | USARTStateTX::Aborted(_) => !block.has(Field::dmat()) && (
            self.tx_len == 0 || wait is Sent),
            USARTStateTX::DMA_Transmitting => (block.has(Field::dmat()) || wait is TransmitStop)
                && !(wait is ToldTransmit),
            USARTStateTX::Transfer_Completing => block.has(Field::tcie())
                && !(wait is ToldTransmit),
        }
        &&& wait is TransmitStop ==> !block.has(Field::dmat())
    }

    /// The receiver and the registers fit together: DMA for receiving and the error interrupts
    /// are on while a stream receives and off while nothing is received, and a length is noted
    /// only while there is a reception.
    pub open spec fn receiver_fits(self, block: UsartRegisters, wait: Wait) -> bool {
        &&& match self.usart_rx_state {
            USARTStateRX::Idle | USARTStateRX::Aborted(..) => !block.has(Field::dmar())
                && !block.has(Field::eie()) && (self.rx_len == 0 || wait is Filled
                || wait is Lost),
            USARTStateRX::DMA_Receiving => (block.has(Field::dmar()) && block.has(Field::eie())
                || wait is ReceiveStop) && !(wait is ToldReceive),
        }
        &&& wait is ReceiveStop ==> !block.has(Field::dmar()) && !block.has(Field::eie())
    }

    /// Both sides fit together with the registers.
    pub open spec fn fits(self, block: UsartRegisters, wait: Wait) -> bool {
        self.sender_fits(block, wait) && self.receiver_fits(block, wait)
    }
}

/// A fresh driver fits registers in which neither DMA nor the error interrupts are on.
pub proof fn law_fresh_driver_fits<P: Platform>(
    registers: u32,
    clock: crate::rcc::UsartClock,
    tx_dma_pid: P::Peripheral,
    rx_dma_pid: P::Peripheral,
    block: UsartRegisters,
)
    requires
        !block.has(Field::dmat()),
        !block.has(Field::dmar()),
        !block.has(Field::eie()),
    ensures
        State::<P>::fresh(registers, clock, tx_dma_pid, rx_dma_pid).fits(block, Wait::Nothing),
{
}

/// State and registers fit together after every call, and while it waits, if they did before.
/// What is left out is that a client which is told of an aborted transfer makes its side busy
/// again before it returns: the driver then takes that side for idle.
pub proof fn law_registers_follow_state<P: Platform>(
    state: State<P>,
    block: UsartRegisters,
    event: Event<P>,
)
    requires
        state.fits(block, event.wait()),
    ensures
        ({
            let (later, reaction) = state.react(event);
            later.fits(block.after(reaction.commands), reaction.next.wait())
        }),
{
    reveal_with_fuel(UsartRegisters::after, 4);
    match event {
        Event::Configure => {
            lemma_configuration_keeps::<P>(block, Field::dmat());
            lemma_configuration_keeps::<P>(block, Field::dmar());
            lemma_configuration_keeps::<P>(block, Field::eie());
            lemma_configuration_keeps::<P>(block, Field::tcie());
        },
        _ => {
            lemma_bits_after();
        },
    }
}

/// Sending leaves the bits that belong to receiving alone, and the other way round.
pub proof fn law_register_bits_are_independent<P: Platform>(
    state: State<P>,
    block: UsartRegisters,
    event: Event<P>,
)
    ensures
        ({
            let later = block.after(state.react(event).1.commands);
            &&& crate::transfers::sends(state, event) ==> later.has(Field::dmar()) == block.has(
                Field::dmar(),
            ) && later.has(Field::eie()) == block.has(Field::eie())
            &&& crate::transfers::receives(state, event) ==> later.has(Field::dmat()) == block.has(
                Field::dmat(),
            ) && later.has(Field::tcie()) == block.has(Field::tcie())
        }),
{
    reveal_with_fuel(UsartRegisters::after, 4);
    lemma_bits_after();
}

proof fn lemma_bits_after()
    ensures
        forall|b: UsartRegisters, field: Field, other: Field| #[trigger]
            b.modified(field.set()).has(other) == (other == field || b.has(other)),
        forall|b: UsartRegisters, field: Field, other: Field| #[trigger]
            b.modified(field.clear()).has(other) == (other != field && b.has(other)),
{
    assert forall|b: UsartRegisters, field: Field, other: Field| #[trigger]
        b.modified(field.set()).has(other) == (other == field || b.has(other)) by {
        if other == field {
            crate::fields::law_set_and_clear(field, b.content(field.register()));
        } else {
            crate::registers::law_modify_changes_one_field(b, field.set(), other);
        }
    }
    assert forall|b: UsartRegisters, field: Field, other: Field| #[trigger]
        b.modified(field.clear()).has(other) == (other != field && b.has(other)) by {
        if other == field {
            crate::fields::law_set_and_clear(field, b.content(field.register()));
        } else {
            crate::registers::law_modify_changes_one_field(b, field.clear(), other);
        }
    }
}

proof fn lemma_configuration_keeps<P: Platform>(block: UsartRegisters, field: Field)
    requires
        field.register() == Register::CR3 || field == Field::tcie(),
    ensures
        block.after(Command::<P>::configuration()).has(field) == block.has(field),
{
    let later = block.after(Command::<P>::configuration());
    law_configuration::<P>(block, field);
    crate::fields::law_set_means_not_zero(field, block.content(field.register()));
    crate::fields::law_set_means_not_zero(field, later.content(field.register()));
}

} // verus!
