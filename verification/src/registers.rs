//! The register block of a USART and what it holds.
use crate::fields::{Field, FieldValue};
use vstd::prelude::*;

verus! {

/// Address of the registers of USART1.
// See Table 13. STM32F427xx and STM32F429xx register boundary addresses
// of the STM32F429zi datasheet
pub const USART1_BASE: u32 = 0x40011000;

/// Address of the registers of USART2.
pub const USART2_BASE: u32 = 0x40004400;

/// Address of the registers of USART3.
pub const USART3_BASE: u32 = 0x40004800;

/// A register of the block.
#[derive(Clone, Copy, PartialEq, Eq, Debug, Structural)]
pub enum Register {
    /// Status register.
    SR,
    /// Data register.
    DR,
    /// Baud rate register.
    BRR,
    /// Control register 1.
    CR1,
    /// Control register 2.
    CR2,
    /// Control register 3.
    CR3,
    /// Guard time and prescaler register.
    GTPR,
}

impl Register {
    /// Bytes from the start of the block: the registers are 32 bits wide and follow each other
    /// in the order in which they are declared.
    pub open spec fn spec_offset(self) -> u32 {
        match self {
            Register::SR => 0x00,
            Register::DR => 0x04,
            Register::BRR => 0x08,
            Register::CR1 => 0x0C,
            Register::CR2 => 0x10,
            Register::CR3 => 0x14,
            Register::GTPR => 0x18,
        }
    }

    /// Bytes from the start of the block.
    #[verifier::when_used_as_spec(spec_offset)]
    pub fn offset(self) -> (bytes: u32)
        ensures
            bytes == self.spec_offset(),
    {
        match self {
            Register::SR => 0x00,
            Register::DR => 0x04,
            Register::BRR => 0x08,
            Register::CR1 => 0x0C,
            Register::CR2 => 0x10,
            Register::CR3 => 0x14,
            Register::GTPR => 0x18,
        }
    }
}

/// Address of the data register in the block that starts at `regs`: where a DMA stream puts
/// what is to be sent and takes what was received.
pub fn get_address_dr(regs: u32) -> (address: u32)
    requires
        regs + Register::DR.offset() <= u32::MAX,
    ensures
        address == regs + Register::DR.offset(),
{
    regs + Register::DR.offset()
}

/// Universal synchronous asynchronous receiver transmitter: what the registers of one block
/// hold.
#[derive(Clone, Copy, PartialEq, Eq, Debug, Structural)]
pub struct UsartRegisters {
    /// Status register.
    pub sr: u32,
    /// Data register.
    pub dr: u32,
    /// Baud rate register.
    pub brr: u32,
    /// Control register 1.
    pub cr1: u32,
    /// Control register 2.
    pub cr2: u32,
    /// Control register 3.
    pub cr3: u32,
    /// Guard time and prescaler register.
    pub gtpr: u32,
}

impl UsartRegisters {
    /// What one register holds.
    pub open spec fn content(self, register: Register) -> u32 {
        match register {
            Register::SR => self.sr,
            Register::DR => self.dr,
            Register::BRR => self.brr,
            Register::CR1 => self.cr1,
            Register::CR2 => self.cr2,
            Register::CR3 => self.cr3,
            Register::GTPR => self.gtpr,
        }
    }

    /// The block with the content of one register replaced.
    pub open spec fn written(self, register: Register, value: u32) -> UsartRegisters {
        match register {
            Register::SR => UsartRegisters { sr: value, ..self },
            Register::DR => UsartRegisters { dr: value, ..self },
            Register::BRR => UsartRegisters { brr: value, ..self },
            Register::CR1 => UsartRegisters { cr1: value, ..self },
            Register::CR2 => UsartRegisters { cr2: value, ..self },
            Register::CR3 => UsartRegisters { cr3: value, ..self },
            Register::GTPR => UsartRegisters { gtpr: value, ..self },
        }
    }

    /// The block with one field replaced.
    pub open spec fn modified(self, change: FieldValue) -> UsartRegisters {
        let register = change.field.register();
        self.written(register, change.modified(self.content(register)))
    }

    /// Whether any bit of a field is one.
    pub open spec fn has(self, field: Field) -> bool {
        field.set_in(self.content(field.register()))
    }

    /// What a field holds.
    pub open spec fn field(self, field: Field) -> u32 {
        field.value_in(self.content(field.register()))
    }

    /// Reads a register.
    pub fn read(&self, register: Register) -> (value: u32)
        ensures
            value == self.content(register),
    {
        match register {
            Register::SR => self.sr,
            Register::DR => self.dr,
            Register::BRR => self.brr,
            Register::CR1 => self.cr1,
            Register::CR2 => self.cr2,
            Register::CR3 => self.cr3,
            Register::GTPR => self.gtpr,
        }
    }

    /// Writes a register.
    pub fn write(&mut self, register: Register, value: u32)
        ensures
            *final(self) == old(self).written(register, value),
    {
        match register {
            Register::SR => self.sr = value,
            Register::DR => self.dr = value,
            Register::BRR => self.brr = value,
            Register::CR1 => self.cr1 = value,
            Register::CR2 => self.cr2 = value,
            Register::CR3 => self.cr3 = value,
            Register::GTPR => self.gtpr = value,
        }
    }

    /// Reads the register of a field and writes it back with the field replaced.
    pub fn modify(&mut self, change: FieldValue)
        ensures
            *final(self) == old(self).modified(change),
    {
        let register = change.field.register();
        let content: u32 = self.read(register);
        self.write(register, change.modify(content));
    }

    /// Whether any bit of a field is one.
    pub fn is_set(&self, field: Field) -> (any: bool)
        ensures
            any == self.has(field),
    {
        field.is_set(self.read(field.register()))
    }
}

/// What is written to a register is what it then holds, and the other registers hold what they
/// held.
pub proof fn law_write_reads_back(
    block: UsartRegisters,
    register: Register,
    value: u32,
    other: Register,
)
    ensures
        block.written(register, value).content(register) == value,
        other != register ==> block.written(register, value).content(other) == block.content(other),
{
}

/// Replacing a field changes no other field, of its own register or of another.
pub proof fn law_modify_changes_one_field(block: UsartRegisters, change: FieldValue, other: Field)
    requires
        other != change.field,
    ensures
        block.modified(change).field(change.field) == change.value & change.field.mask(),
        block.modified(change).field(other) == block.field(other),
        block.modified(change).has(other) == block.has(other),
{
    let content = block.content(change.field.register());
    crate::fields::law_modify_reads_back(change, content);
    if other.register() == change.field.register() {
        crate::fields::law_modify_keeps_other_fields(change, other, content);
    }
}

} // verus!
