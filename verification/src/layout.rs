//! Where the bits are: the register block and its fields in numbers, and what reading and changing
//! a field does to them.
use crate::fields::{Field, FieldValue, BRR, CR1, CR2, CR3, GTPR, SR};
use crate::platform::{Buffer, Platform};
use crate::registers::{Register, UsartRegisters, USART1_BASE, USART2_BASE, USART3_BASE};
use crate::turn::{Command, Turn};
use crate::uart::{Parameters, Parity, StopBits, Width};
use vstd::prelude::*;

verus! {

/// Every field lies in its register, at its bit, with its width, and has the bits that the
/// reference manual gives it.
pub proof fn law_layout(field: Field)
    ensures
        ({
            let place: (Register, usize, u32, u32) = (
                field.register(),
                field.offset(),
                field.numbits(),
                field.bits(),
            );
            match field {
                Field::SR(SR::CTS) => place == (Register::SR, 9usize, 1u32, 0x200u32),
                Field::SR(SR::LBD) => place == (Register::SR, 8usize, 1u32, 0x100u32),
                Field::SR(SR::TXE) => place == (Register::SR, 7usize, 1u32, 0x80u32),
                Field::SR(SR::TC) => place == (Register::SR, 6usize, 1u32, 0x40u32),
                Field::SR(SR::RXNE) => place == (Register::SR, 5usize, 1u32, 0x20u32),
                Field::SR(SR::IDLE) => place == (Register::SR, 4usize, 1u32, 0x10u32),
                Field::SR(SR::ORE) => place == (Register::SR, 3usize, 1u32, 0x8u32),
                Field::SR(SR::NF) => place == (Register::SR, 2usize, 1u32, 0x4u32),
                Field::SR(SR::FE) => place == (Register::SR, 1usize, 1u32, 0x2u32),
                Field::SR(SR::PE) => place == (Register::SR, 0usize, 1u32, 0x1u32),
                Field::BRR(BRR::DIV_Mantissa) => place == (Register::BRR, 4usize, 12u32, 0xFFF0u32),
                Field::BRR(BRR::DIV_Fraction) => place == (Register::BRR, 0usize, 4u32, 0xFu32),
                Field::CR1(CR1::OVER8) => place == (Register::CR1, 15usize, 1u32, 0x8000u32),
                Field::CR1(CR1::UE) => place == (Register::CR1, 13usize, 1u32, 0x2000u32),
                Field::CR1(CR1::M) => place == (Register::CR1, 12usize, 1u32, 0x1000u32),
                Field::CR1(CR1::WAKE) => place == (Register::CR1, 11usize, 1u32, 0x800u32),
                Field::CR1(CR1::PCE) => place == (Register::CR1, 10usize, 1u32, 0x400u32),
                Field::CR1(CR1::PS) => place == (Register::CR1, 9usize, 1u32, 0x200u32),
                Field::CR1(CR1::PEIE) => place == (Register::CR1, 8usize, 1u32, 0x100u32),
                Field::CR1(CR1::TXEIE) => place == (Register::CR1, 7usize, 1u32, 0x80u32),
                Field::CR1(CR1::TCIE) => place == (Register::CR1, 6usize, 1u32, 0x40u32),
                Field::CR1(CR1::RXNEIE) => place == (Register::CR1, 5usize, 1u32, 0x20u32),
                Field::CR1(CR1::IDLEIE) => place == (Register::CR1, 4usize, 1u32, 0x10u32),
                Field::CR1(CR1::TE) => place == (Register::CR1, 3usize, 1u32, 0x8u32),
                Field::CR1(CR1::RE) => place == (Register::CR1, 2usize, 1u32, 0x4u32),
                Field::CR1(CR1::RWU) => place == (Register::CR1, 1usize, 1u32, 0x2u32),
                Field::CR1(CR1::SBK) => place == (Register::CR1, 0usize, 1u32, 0x1u32),
                Field::CR2(CR2::LINEN) => place == (Register::CR2, 14usize, 1u32, 0x4000u32),
                Field::CR2(CR2::STOP) => place == (Register::CR2, 12usize, 2u32, 0x3000u32),
                Field::CR2(CR2::CLKEN) => place == (Register::CR2, 11usize, 1u32, 0x800u32),
                Field::CR2(CR2::CPOL) => place == (Register::CR2, 10usize, 1u32, 0x400u32),
                Field::CR2(CR2::CPHA) => place == (Register::CR2, 9usize, 1u32, 0x200u32),
                Field::CR2(CR2::LBCL) => place == (Register::CR2, 8usize, 1u32, 0x100u32),
                Field::CR2(CR2::LBDIE) => place == (Register::CR2, 6usize, 1u32, 0x40u32),
                Field::CR2(CR2::LBDL) => place == (Register::CR2, 5usize, 1u32, 0x20u32),
                Field::CR2(CR2::ADD) => place == (Register::CR2, 0usize, 4u32, 0xFu32),
                Field::CR3(CR3::ONEBIT) => place == (Register::CR3, 11usize, 1u32, 0x800u32),
                Field::CR3(CR3::CTSIE) => place == (Register::CR3, 10usize, 1u32, 0x400u32),
                Field::CR3(CR3::CTSE) => place == (Register::CR3, 9usize, 1u32, 0x200u32),
                Field::CR3(CR3::RTSE) => place == (Register::CR3, 8usize, 1u32, 0x100u32),
                Field::CR3(CR3::DMAT) => place == (Register::CR3, 7usize, 1u32, 0x80u32),
                Field::CR3(CR3::DMAR) => place == (Register::CR3, 6usize, 1u32, 0x40u32),
                Field::CR3(CR3::SCEN) => place == (Register::CR3, 5usize, 1u32, 0x20u32),
                Field::CR3(CR3::NACK) => place == (Register::CR3, 4usize, 1u32, 0x10u32),
                Field::CR3(CR3::HDSEL) => place == (Register::CR3, 3usize, 1u32, 0x8u32),
                Field::CR3(CR3::IRLP) => place == (Register::CR3, 2usize, 1u32, 0x4u32),
                Field::CR3(CR3::IREN) => place == (Register::CR3, 1usize, 1u32, 0x2u32),
                Field::CR3(CR3::EIE) => place == (Register::CR3, 0usize, 1u32, 0x1u32),
                Field::GTPR(GTPR::GT) => place == (Register::GTPR, 8usize, 8u32, 0xFF00u32),
                Field::GTPR(GTPR::PSC) => place == (Register::GTPR, 0usize, 8u32, 0xFFu32),
            }
        }),
        match field {
            Field::SR(part) => part.offset() == field.offset(),
            Field::BRR(part) => part.offset() == field.offset() && part.numbits()
                == field.numbits(),
            Field::CR1(part) => part.offset() == field.offset(),
            Field::CR2(part) => part.offset() == field.offset() && part.numbits()
                == field.numbits(),
            Field::CR3(part) => part.offset() == field.offset(),
            Field::GTPR(part) => part.offset() == field.offset() && part.numbits()
                == field.numbits(),
        },
{
    assert((((1u32 << 1u32) - 1) as u32) << 0usize == 0x1
        && (((1u32 << 1u32) - 1) as u32) << 1usize == 0x2
        && (((1u32 << 1u32) - 1) as u32) << 2usize == 0x4
        && (((1u32 << 1u32) - 1) as u32) << 3usize == 0x8
        && (((1u32 << 1u32) - 1) as u32) << 4usize == 0x10
        && (((1u32 << 1u32) - 1) as u32) << 5usize == 0x20
        && (((1u32 << 1u32) - 1) as u32) << 6usize == 0x40
        && (((1u32 << 1u32) - 1) as u32) << 7usize == 0x80
        && (((1u32 << 1u32) - 1) as u32) << 8usize == 0x100
        && (((1u32 << 1u32) - 1) as u32) << 9usize == 0x200
        && (((1u32 << 1u32) - 1) as u32) << 10usize == 0x400
        && (((1u32 << 1u32) - 1) as u32) << 11usize == 0x800
        && (((1u32 << 1u32) - 1) as u32) << 12usize == 0x1000
        && (((1u32 << 1u32) - 1) as u32) << 13usize == 0x2000
        && (((1u32 << 1u32) - 1) as u32) << 14usize == 0x4000
        && (((1u32 << 1u32) - 1) as u32) << 15usize == 0x8000
        && (((1u32 << 2u32) - 1) as u32) << 12usize == 0x3000
        && (((1u32 << 4u32) - 1) as u32) << 0usize == 0xF
        && (((1u32 << 8u32) - 1) as u32) << 0usize == 0xFF
        && (((1u32 << 8u32) - 1) as u32) << 8usize == 0xFF00
        && (((1u32 << 12u32) - 1) as u32) << 4usize == 0xFFF0) by (bit_vector);
}

/// The mask of a field is its bits moved down to the lowest one: that many ones and nothing else.
pub proof fn law_mask_is_bits_moved_down(field: Field)
    ensures
        field.mask() << field.offset() == field.bits(),
        field.bits() >> field.offset() == field.mask(),
        field.mask() == match field.numbits() {
            1 => 0x1u32,
            2 => 0x3u32,
            4 => 0xFu32,
            8 => 0xFFu32,
            _ => 0xFFFu32,
        },
{
    law_layout(field);
    assert(((1u32 << 1u32) - 1) as u32 == 0x1
        && ((1u32 << 2u32) - 1) as u32 == 0x3
        && ((1u32 << 4u32) - 1) as u32 == 0xF
        && ((1u32 << 8u32) - 1) as u32 == 0xFF
        && ((1u32 << 12u32) - 1) as u32 == 0xFFF) by (bit_vector);
    let mask: u32 = field.mask();
    let offset: usize = field.offset();
    assert((mask << offset) >> offset == mask) by (bit_vector)
        requires
            mask <= 0xFFF,
            offset <= 15,
    ;
}

/// A field is set where the register content has one of its bits; what it holds is its bits, moved
/// down.
pub proof fn law_reading_a_field(field: Field, content: u32)
    ensures
        field.set_in(content) <==> content & field.bits() != 0,
        field.value_in(content) == (content & field.bits()) >> field.offset(),
{
}

/// Changing a field leaves every bit outside it, also those that belong to no field, and puts the
/// value, moved up, into its bits.
pub proof fn law_changing_a_field(field: Field, value: u32, content: u32)
    ensures
        ({
            let later = (FieldValue { field, value }).modified(content);
            &&& later & !field.bits() == content & !field.bits()
            &&& later & field.bits() == (value << field.offset()) & field.bits()
        }),
{
    let mask: u32 = field.mask();
    let offset: usize = field.offset();
    let bits: u32 = field.bits();
    law_layout(field);
    assert(((content & !bits) | ((value & mask) << offset)) & !bits == content & !bits && ((content
        & !bits) | ((value & mask) << offset)) & bits == (value << offset) & bits) by (bit_vector)
        requires
            bits == mask << offset,
            offset <= 15,
    ;
}

/// Setting a field turns its bits on and clearing it turns them off; no other bit changes.
pub proof fn law_setting_and_clearing(field: Field, content: u32)
    ensures
        field.set().field == field,
        field.clear().field == field,
        field.set().modified(content) == content | field.bits(),
        field.clear().modified(content) == content & !field.bits(),
{
    let mask: u32 = field.mask();
    let offset: usize = field.offset();
    let bits: u32 = field.bits();
    assert((content & !bits) | ((mask & mask) << offset) == content | bits && (content & !bits) | ((
    0u32 & mask) << offset) == content & !bits) by (bit_vector)
        requires
            bits == mask << offset,
    ;
}

/// The registers lie one after the other, four bytes each, and the three blocks where the datasheet
/// has them.
pub proof fn law_addresses(register: Register)
    ensures
        register.offset() == match register {
            Register::SR => 0u32,
            Register::DR => 4u32,
            Register::BRR => 8u32,
            Register::CR1 => 12u32,
            Register::CR2 => 16u32,
            Register::CR3 => 20u32,
            Register::GTPR => 24u32,
        },
        USART1_BASE == 0x40011000,
        USART2_BASE == 0x40004400,
        USART3_BASE == 0x40004800,
{
}

/// A block is its seven registers: reading one gives what it holds, and writing one, or changing a
/// field of it, replaces what it holds and nothing else.
pub proof fn law_block(block: UsartRegisters, value: u32, change: FieldValue)
    ensures
        block.content(Register::SR) == block.sr,
        block.content(Register::DR) == block.dr,
        block.content(Register::BRR) == block.brr,
        block.content(Register::CR1) == block.cr1,
        block.content(Register::CR2) == block.cr2,
        block.content(Register::CR3) == block.cr3,
        block.content(Register::GTPR) == block.gtpr,
        block.written(Register::SR, value) == (UsartRegisters { sr: value, ..block }),
        block.written(Register::DR, value) == (UsartRegisters { dr: value, ..block }),
        block.written(Register::BRR, value) == (UsartRegisters { brr: value, ..block }),
        block.written(Register::CR1, value) == (UsartRegisters { cr1: value, ..block }),
        block.written(Register::CR2, value) == (UsartRegisters { cr2: value, ..block }),
        block.written(Register::CR3, value) == (UsartRegisters { cr3: value, ..block }),
        block.written(Register::GTPR, value) == (UsartRegisters { gtpr: value, ..block }),
        block.modified(change) == match change.field {
            Field::SR(_) => UsartRegisters { sr: change.modified(block.sr), ..block },
            Field::BRR(_) => UsartRegisters { brr: change.modified(block.brr), ..block },
            Field::CR1(_) => UsartRegisters { cr1: change.modified(block.cr1), ..block },
            Field::CR2(_) => UsartRegisters { cr2: change.modified(block.cr2), ..block },
            Field::CR3(_) => UsartRegisters { cr3: change.modified(block.cr3), ..block },
            Field::GTPR(_) => UsartRegisters { gtpr: change.modified(block.gtpr), ..block },
        },
        block.has(change.field) <==> match change.field {
            Field::SR(_) => block.sr & change.field.bits() != 0,
            Field::BRR(_) => block.brr & change.field.bits() != 0,
            Field::CR1(_) => block.cr1 & change.field.bits() != 0,
            Field::CR2(_) => block.cr2 & change.field.bits() != 0,
            Field::CR3(_) => block.cr3 & change.field.bits() != 0,
            Field::GTPR(_) => block.gtpr & change.field.bits() != 0,
        },
{
}

/// Commands act on the registers in their order: a change and a write each on their register, and
/// the others on none.
pub proof fn law_commands_act_in_order<P: Platform>(
    block: UsartRegisters,
    commands: Seq<Command<P>>,
    last: Command<P>,
)
    ensures
        block.after(Seq::<Command<P>>::empty()) == block,
        block.after(commands.push(last)) == match last {
            Command::Modify(change) => block.after(commands).modified(change),
            Command::Write(register, value) => block.after(commands).written(register, value),
            Command::Touch(_) => block.after(commands),
            Command::DoTransfer { .. } => block.after(commands),
            Command::SetDeferredCall => block.after(commands),
        },
{
    assert(commands.push(last).drop_last() =~= commands);
}

/// A turn wants what it holds: its commands, all of them and in their order, and what comes next.
pub proof fn law_turn_shows_everything<P: Platform>(turn: Turn<P>)
    ensures
        turn@.commands == turn.commands@,
        turn@.next == turn.next,
{
}

/// A buffer is as long as it has bytes.
pub proof fn law_buffers_have_their_length(memory: Vec<u8>, fixed: &'static mut [u8])
    ensures
        Buffer::size(&memory) == memory@.len(),
        Buffer::size(&fixed) == old(fixed)@.len(),
{
}

/// One setting is supported: 115200bps, eight bits, no parity, one stop bit, and no hardware flow
/// control.
pub proof fn law_supported_setting(params: Parameters)
    ensures
        params.supported() <==> {
            &&& params.baud_rate == 115200
            &&& params.width is Eight
            &&& params.parity is NoParity
            &&& params.stop_bits is One
            &&& !params.hw_flow_control
        },
{
}

} // verus!
