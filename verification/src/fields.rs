//! The bit fields of the USART registers.
//!
//! Each register that has fields is an enum of them, and [`Field`] is any field of any
//! register. A field is a run of adjacent bits: it starts at `offset` and is `numbits` wide.
use crate::registers::Register;
use vstd::prelude::*;

verus! {

/// Fields of the status register.
#[allow(non_camel_case_types)]
#[derive(Clone, Copy, PartialEq, Eq, Debug, Structural)]
pub enum SR {
    /// CTS flag.
    CTS,
    /// LIN break detection flag.
    LBD,
    /// Transmit data register empty.
    TXE,
    /// Transmission complete.
    TC,
    /// Read data register not empty.
    RXNE,
    /// IDLE line detected.
    IDLE,
    /// Overrun error.
    ORE,
    /// Noise detected flag.
    NF,
    /// Framing error.
    FE,
    /// Parity error.
    PE,
}

impl SR {
    /// Position of the lowest bit.
    pub open spec fn spec_offset(self) -> usize {
        match self {
            SR::CTS => 9,
            SR::LBD => 8,
            SR::TXE => 7,
            SR::TC => 6,
            SR::RXNE => 5,
            SR::IDLE => 4,
            SR::ORE => 3,
            SR::NF => 2,
            SR::FE => 1,
            SR::PE => 0,
        }
    }

    /// Position of the lowest bit.
    #[verifier::when_used_as_spec(spec_offset)]
    pub fn offset(self) -> (bit: usize)
        ensures
            bit == self.spec_offset(),
    {
        match self {
            SR::CTS => 9,
            SR::LBD => 8,
            SR::TXE => 7,
            SR::TC => 6,
            SR::RXNE => 5,
            SR::IDLE => 4,
            SR::ORE => 3,
            SR::NF => 2,
            SR::FE => 1,
            SR::PE => 0,
        }
    }
}

/// Fields of the baud rate register.
#[allow(non_camel_case_types)]
#[derive(Clone, Copy, PartialEq, Eq, Debug, Structural)]
pub enum BRR {
    /// Mantissa of USARTDIV.
    DIV_Mantissa,
    /// Fraction of USARTDIV.
    DIV_Fraction,
}

impl BRR {
    /// Position of the lowest bit.
    pub open spec fn spec_offset(self) -> usize {
        match self {
            BRR::DIV_Mantissa => 4,
            BRR::DIV_Fraction => 0,
        }
    }

    /// Width in bits.
    pub open spec fn spec_numbits(self) -> u32 {
        match self {
            BRR::DIV_Mantissa => 12,
            BRR::DIV_Fraction => 4,
        }
    }

    /// Position of the lowest bit.
    #[verifier::when_used_as_spec(spec_offset)]
    pub fn offset(self) -> (bit: usize)
        ensures
            bit == self.spec_offset(),
    {
        match self {
            BRR::DIV_Mantissa => 4,
            BRR::DIV_Fraction => 0,
        }
    }

    /// Width in bits.
    #[verifier::when_used_as_spec(spec_numbits)]
    pub fn numbits(self) -> (width: u32)
        ensures
            width == self.spec_numbits(),
    {
        match self {
            BRR::DIV_Mantissa => 12,
            BRR::DIV_Fraction => 4,
        }
    }
}

/// Fields of the control register 1.
#[allow(non_camel_case_types)]
#[derive(Clone, Copy, PartialEq, Eq, Debug, Structural)]
pub enum CR1 {
    /// Oversampling mode.
    OVER8,
    /// USART enable.
    UE,
    /// Word length.
    M,
    /// Wakeup method.
    WAKE,
    /// Parity control enable.
    PCE,
    /// Parity selection.
    PS,
    /// PE interrupt enable.
    PEIE,
    /// TXE interrupt enable.
    TXEIE,
    /// Transmission complete interrupt enable.
    TCIE,
    /// RXNE interrupt enable.
    RXNEIE,
    /// IDLE interrupt enable.
    IDLEIE,
    /// Transmitter enable.
    TE,
    /// Receiver enable.
    RE,
    /// Receiver wakeup.
    RWU,
    /// Send break.
    SBK,
}

impl CR1 {
    /// Position of the lowest bit.
    pub open spec fn spec_offset(self) -> usize {
        match self {
            CR1::OVER8 => 15,
            CR1::UE => 13,
            CR1::M => 12,
            CR1::WAKE => 11,
            CR1::PCE => 10,
            CR1::PS => 9,
            CR1::PEIE => 8,
            CR1::TXEIE => 7,
            CR1::TCIE => 6,
            CR1::RXNEIE => 5,
            CR1::IDLEIE => 4,
            CR1::TE => 3,
            CR1::RE => 2,
            CR1::RWU => 1,
            CR1::SBK => 0,
        }
    }

    /// Position of the lowest bit.
    #[verifier::when_used_as_spec(spec_offset)]
    pub fn offset(self) -> (bit: usize)
        ensures
            bit == self.spec_offset(),
    {
        match self {
            CR1::OVER8 => 15,
            CR1::UE => 13,
            CR1::M => 12,
            CR1::WAKE => 11,
            CR1::PCE => 10,
            CR1::PS => 9,
            CR1::PEIE => 8,
            CR1::TXEIE => 7,
            CR1::TCIE => 6,
            CR1::RXNEIE => 5,
            CR1::IDLEIE => 4,
            CR1::TE => 3,
            CR1::RE => 2,
            CR1::RWU => 1,
            CR1::SBK => 0,
        }
    }
}

/// Fields of the control register 2.
#[allow(non_camel_case_types)]
#[derive(Clone, Copy, PartialEq, Eq, Debug, Structural)]
pub enum CR2 {
    /// LIN mode enable.
    LINEN,
    /// STOP bits.
    STOP,
    /// Clock enable.
    CLKEN,
    /// Clock polarity.
    CPOL,
    /// Clock phase.
    CPHA,
    /// Last bit clock pulse.
    LBCL,
    /// LIN break detection interrupt enable.
    LBDIE,
    /// LIN break detection length.
    LBDL,
    /// Address of the USART node.
    ADD,
}

impl CR2 {
    /// Position of the lowest bit.
    pub open spec fn spec_offset(self) -> usize {
        match self {
            CR2::LINEN => 14,
            CR2::STOP => 12,
            CR2::CLKEN => 11,
            CR2::CPOL => 10,
            CR2::CPHA => 9,
            CR2::LBCL => 8,
            CR2::LBDIE => 6,
            CR2::LBDL => 5,
            CR2::ADD => 0,
        }
    }

    /// Width in bits.
    pub open spec fn spec_numbits(self) -> u32 {
        match self {
            CR2::STOP => 2,
            CR2::ADD => 4,
            _ => 1,
        }
    }

    /// Position of the lowest bit.
    #[verifier::when_used_as_spec(spec_offset)]
    pub fn offset(self) -> (bit: usize)
        ensures
            bit == self.spec_offset(),
    {
        match self {
            CR2::LINEN => 14,
            CR2::STOP => 12,
            CR2::CLKEN => 11,
            CR2::CPOL => 10,
            CR2::CPHA => 9,
            CR2::LBCL => 8,
            CR2::LBDIE => 6,
            CR2::LBDL => 5,
            CR2::ADD => 0,
        }
    }

    /// Width in bits.
    #[verifier::when_used_as_spec(spec_numbits)]
    pub fn numbits(self) -> (width: u32)
        ensures
            width == self.spec_numbits(),
    {
        match self {
            CR2::STOP => 2,
            CR2::ADD => 4,
            _ => 1,
        }
    }
}

/// Fields of the control register 3.
#[allow(non_camel_case_types)]
#[derive(Clone, Copy, PartialEq, Eq, Debug, Structural)]
pub enum CR3 {
    /// One sample bit method enable.
    ONEBIT,
    /// CTS interrupt enable.
    CTSIE,
    /// CTS enable.
    CTSE,
    /// RTS enable.
    RTSE,
    /// DMA enable transmitter.
    DMAT,
    /// DMA enable receiver.
    DMAR,
    /// Smartcard mode enable.
    SCEN,
    /// Smartcard NACK enable.
    NACK,
    /// Half-duplex selection.
    HDSEL,
    /// IrDA low-power.
    IRLP,
    /// IrDA mode enable.
    IREN,
    /// Error interrupt enable.
    EIE,
}

impl CR3 {
    /// Position of the lowest bit.
    pub open spec fn spec_offset(self) -> usize {
        match self {
            CR3::ONEBIT => 11,
            CR3::CTSIE => 10,
            CR3::CTSE => 9,
            CR3::RTSE => 8,
            CR3::DMAT => 7,
            CR3::DMAR => 6,
            CR3::SCEN => 5,
            CR3::NACK => 4,
            CR3::HDSEL => 3,
            CR3::IRLP => 2,
            CR3::IREN => 1,
            CR3::EIE => 0,
        }
    }

    /// Position of the lowest bit.
    #[verifier::when_used_as_spec(spec_offset)]
    pub fn offset(self) -> (bit: usize)
        ensures
            bit == self.spec_offset(),
    {
        match self {
            CR3::ONEBIT => 11,
            CR3::CTSIE => 10,
            CR3::CTSE => 9,
            CR3::RTSE => 8,
            CR3::DMAT => 7,
            CR3::DMAR => 6,
            CR3::SCEN => 5,
            CR3::NACK => 4,
            CR3::HDSEL => 3,
            CR3::IRLP => 2,
            CR3::IREN => 1,
            CR3::EIE => 0,
        }
    }
}

/// Fields of the guard time and prescaler register.
#[allow(non_camel_case_types)]
#[derive(Clone, Copy, PartialEq, Eq, Debug, Structural)]
pub enum GTPR {
    /// Guard time value.
    GT,
    /// Prescaler value.
    PSC,
}

impl GTPR {
    /// Position of the lowest bit.
    pub open spec fn spec_offset(self) -> usize {
        match self {
            GTPR::GT => 8,
            GTPR::PSC => 0,
        }
    }

    /// Width in bits.
    pub open spec fn spec_numbits(self) -> u32 {
        match self {
            GTPR::GT => 8,
            GTPR::PSC => 8,
        }
    }

    /// Position of the lowest bit.
    #[verifier::when_used_as_spec(spec_offset)]
    pub fn offset(self) -> (bit: usize)
        ensures
            bit == self.spec_offset(),
    {
        match self {
            GTPR::GT => 8,
            GTPR::PSC => 0,
        }
    }

    /// Width in bits.
    #[verifier::when_used_as_spec(spec_numbits)]
    pub fn numbits(self) -> (width: u32)
        ensures
            width == self.spec_numbits(),
    {
        match self {
            GTPR::GT => 8,
            GTPR::PSC => 8,
        }
    }
}
/// A field of one of the registers.
#[derive(Clone, Copy, PartialEq, Eq, Debug, Structural)]
pub enum Field {
    /// A field of the status register.
    SR(SR),
    /// A field of the baud rate register.
    BRR(BRR),
    /// A field of control register 1.
    CR1(CR1),
    /// A field of control register 2.
    CR2(CR2),
    /// A field of control register 3.
    CR3(CR3),
    /// A field of the guard time and prescaler register.
    GTPR(GTPR),
}

impl Field {
    /// The register that holds the field.
    pub open spec fn spec_register(self) -> Register {
        match self {
            Field::SR(_) => Register::SR,
            Field::BRR(_) => Register::BRR,
            Field::CR1(_) => Register::CR1,
            Field::CR2(_) => Register::CR2,
            Field::CR3(_) => Register::CR3,
            Field::GTPR(_) => Register::GTPR,
        }
    }

    /// Position of the lowest bit.
    pub open spec fn spec_offset(self) -> usize {
        match self {
            Field::SR(field) => field.spec_offset(),
            Field::BRR(field) => field.spec_offset(),
            Field::CR1(field) => field.spec_offset(),
            Field::CR2(field) => field.spec_offset(),
            Field::CR3(field) => field.spec_offset(),
            Field::GTPR(field) => field.spec_offset(),
        }
    }

    /// Width in bits.
    pub open spec fn spec_numbits(self) -> u32 {
        match self {
            Field::BRR(field) => field.spec_numbits(),
            Field::CR2(field) => field.spec_numbits(),
            Field::GTPR(field) => field.spec_numbits(),
            _ => 1,
        }
    }

    /// As many ones as the field has bits, not yet moved to the field's place.
    pub open spec fn spec_mask(self) -> u32 {
        ((1u32 << self.spec_numbits()) - 1) as u32
    }

    /// The bits of the register that belong to the field.
    pub open spec fn bits(self) -> u32 {
        self.spec_mask() << self.spec_offset()
    }

    /// Whether any bit of the field is one in the register content `content`.
    pub open spec fn set_in(self, content: u32) -> bool {
        content & self.bits() != 0
    }

    /// What the field holds in the register content `content`.
    pub open spec fn value_in(self, content: u32) -> u32 {
        (content & self.bits()) >> self.spec_offset()
    }

    /// The field with all its bits one.
    pub open spec fn spec_set(self) -> FieldValue {
        FieldValue { field: self, value: self.spec_mask() }
    }

    /// The field with all its bits zero.
    pub open spec fn spec_clear(self) -> FieldValue {
        FieldValue { field: self, value: 0 }
    }

    /// The register that holds the field.
    #[verifier::when_used_as_spec(spec_register)]
    pub fn register(self) -> (register: Register)
        ensures
            register == self.spec_register(),
    {
        match self {
            Field::SR(_) => Register::SR,
            Field::BRR(_) => Register::BRR,
            Field::CR1(_) => Register::CR1,
            Field::CR2(_) => Register::CR2,
            Field::CR3(_) => Register::CR3,
            Field::GTPR(_) => Register::GTPR,
        }
    }

    /// Position of the lowest bit.
    #[verifier::when_used_as_spec(spec_offset)]
    pub fn offset(self) -> (bit: usize)
        ensures
            bit == self.spec_offset(),
    {
        match self {
            Field::SR(field) => field.offset(),
            Field::BRR(field) => field.offset(),
            Field::CR1(field) => field.offset(),
            Field::CR2(field) => field.offset(),
            Field::CR3(field) => field.offset(),
            Field::GTPR(field) => field.offset(),
        }
    }

    /// Width in bits.
    #[verifier::when_used_as_spec(spec_numbits)]
    pub fn numbits(self) -> (width: u32)
        ensures
            width == self.spec_numbits(),
    {
        match self {
            Field::BRR(field) => field.numbits(),
            Field::CR2(field) => field.numbits(),
            Field::GTPR(field) => field.numbits(),
            _ => 1,
        }
    }

    /// As many ones as the field has bits, not yet moved to the field's place.
    #[verifier::when_used_as_spec(spec_mask)]
    pub fn mask(self) -> (ones: u32)
        ensures
            ones == self.spec_mask(),
    {
        let width: u32 = self.numbits();
        proof {
            law_field_fits(self);
            assert(1u32 << width >= 1) by (bit_vector)
                requires
                    width < 32,
            ;
        }
        (1u32 << width) - 1
    }

    /// The field with all its bits one.
    #[verifier::when_used_as_spec(spec_set)]
    pub fn set(self) -> (all_ones: FieldValue)
        ensures
            all_ones == self.spec_set(),
    {
        FieldValue { field: self, value: self.mask() }
    }

    /// The field with all its bits zero.
    #[verifier::when_used_as_spec(spec_clear)]
    pub fn clear(self) -> (all_zeros: FieldValue)
        ensures
            all_zeros == self.spec_clear(),
    {
        FieldValue { field: self, value: 0 }
    }

    /// Whether any bit of the field is one in the register content `content`.
    pub fn is_set(self, content: u32) -> (any: bool)
        ensures
            any == self.set_in(content),
    {
        proof {
            law_field_fits(self);
        }
        field_is_set(self.mask(), self.offset(), content)
    }
}

/// A field together with a value for it. A value wider than the field loses its upper bits.
#[derive(Clone, Copy, PartialEq, Eq, Debug, Structural)]
pub struct FieldValue {
    /// The field.
    pub field: Field,
    /// The value, not yet moved to the field's place.
    pub value: u32,
}

impl FieldValue {
    /// The register content `content` with the field replaced by the value, all other bits kept.
    pub open spec fn modified(self, content: u32) -> u32 {
        (content & !self.field.bits()) | ((self.value & self.field.spec_mask())
            << self.field.spec_offset())
    }

    /// The register content `content` with the field replaced by the value, all other bits kept.
    pub fn modify(self, content: u32) -> (new_content: u32)
        ensures
            new_content == self.modified(content),
    {
        proof {
            law_field_fits(self.field);
        }
        field_modify(self.field.mask(), self.field.offset(), self.value, content)
    }
}

/// Calls `tock_registers::fields::Field::is_set` on the field of `u32` registers with the
/// unshifted mask `mask` at bit `shift`. Claimed of it: the answer is whether `content` and the
/// mask, moved to its place, have a one in common. Shifts of the full width or more are left out:
/// the outside function would overflow.
#[verifier::external_body]
fn field_is_set(mask: u32, shift: usize, content: u32) -> (any: bool)
    requires
        shift < 32,
    ensures
        any == (content & (mask << shift) != 0),
{
    tock_registers::fields::Field::<u32, ()>::new(mask, shift).is_set(content)
}

/// Calls `tock_registers::fields::FieldValue::modify` on the field value that
/// `tock_registers::fields::FieldValue::new` makes of `mask`, `shift` and `value`. Claimed of it:
/// the result has the bits of `content` outside the mask in its place, and inside it those bits
/// of `value` that the unshifted mask lets through. Shifts of the full width or more are left out:
/// the outside function would overflow.
#[verifier::external_body]
fn field_modify(mask: u32, shift: usize, value: u32, content: u32) -> (new_content: u32)
    requires
        shift < 32,
    ensures
        new_content == (content & !(mask << shift)) | ((value & mask) << shift),
{
    tock_registers::fields::FieldValue::<u32, ()>::new(mask, shift, value).modify(content)
}

/// Every field has at least one bit and lies inside its register.
pub proof fn law_field_fits(field: Field)
    ensures
        1 <= field.numbits(),
        field.offset() + field.numbits() <= 16,
{
}

/// A field that is set is not a field that is cleared.
pub proof fn law_mask_is_not_zero(field: Field)
    ensures
        field.mask() != 0,
        field.set() != field.clear(),
{
    law_field_fits(field);
    let width: u32 = field.numbits();
    assert(((1u32 << width) - 1) as u32 != 0) by (bit_vector)
        requires
            1 <= width <= 16,
    ;
}

/// No two fields of a register share a bit.
pub proof fn law_fields_disjoint(one: Field, other: Field)
    requires
        one.register() == other.register(),
        one != other,
    ensures
        one.bits() & other.bits() == 0,
{
    law_field_fits(one);
    law_field_fits(other);
    if one.offset() < other.offset() {
        lemma_spans_disjoint(one.offset(), one.numbits(), other.offset(), other.numbits());
    } else {
        lemma_spans_disjoint(other.offset(), other.numbits(), one.offset(), one.numbits());
        let a: u32 = one.bits();
        let b: u32 = other.bits();
        assert(a & b == b & a) by (bit_vector);
    }
}

/// A field that is given a value holds that value afterwards, cut to the field's width.
pub proof fn law_modify_reads_back(change: FieldValue, content: u32)
    ensures
        change.field.value_in(change.modified(content)) == change.value & change.field.mask(),
{
    law_field_fits(change.field);
    lemma_reads_back(
        change.field.offset(),
        change.field.numbits(),
        change.field.mask(),
        change.value,
        content,
    );
}

/// Giving a field a value leaves every other field of the register as it was.
pub proof fn law_modify_keeps_other_fields(change: FieldValue, other: Field, content: u32)
    requires
        other.register() == change.field.register(),
        other != change.field,
    ensures
        other.value_in(change.modified(content)) == other.value_in(content),
        other.set_in(change.modified(content)) == other.set_in(content),
{
    law_fields_disjoint(change.field, other);
    lemma_modify_keeps(
        change.field.bits(),
        other.bits(),
        change.field.mask(),
        change.field.offset(),
        change.value,
        content,
    );
}

/// Giving a field the same value twice is giving it once.
pub proof fn law_modify_twice(change: FieldValue, content: u32)
    ensures
        change.modified(change.modified(content)) == change.modified(content),
{
    let bits: u32 = change.field.bits();
    let moved: u32 = (change.value & change.field.mask()) << change.field.offset();
    assert((((content & !bits) | moved) & !bits) | moved == (content & !bits) | moved)
        by (bit_vector);
}

/// A field reads as set if and only if what it holds is not zero.
pub proof fn law_set_means_not_zero(field: Field, content: u32)
    ensures
        field.set_in(content) <==> field.value_in(content) != 0,
{
    let mask: u32 = field.mask();
    let offset: usize = field.offset();
    law_field_fits(field);
    assert(content & (mask << offset) != 0 <==> (content & (mask << offset)) >> offset != 0)
        by (bit_vector)
        requires
            offset < 32,
    ;
}

/// A field that is set reads as set, one that is cleared as not set.
pub proof fn law_set_and_clear(field: Field, content: u32)
    ensures
        field.set_in(field.set().modified(content)),
        !field.set_in(field.clear().modified(content)),
{
    law_field_fits(field);
    lemma_set_and_clear(field.offset(), field.numbits(), field.mask(), content);
}

/// Clearing a field undoes setting it where it was clear before.
pub proof fn law_clear_undoes_set(field: Field, content: u32)
    requires
        !field.set_in(content),
    ensures
        field.clear().modified(field.set().modified(content)) == content,
{
    let bits: u32 = field.bits();
    let mask: u32 = field.mask();
    let offset: usize = field.offset();
    law_field_fits(field);
    assert((((content & !bits) | ((mask & mask) << offset)) & !bits) | ((0u32 & mask) << offset)
        == content) by (bit_vector)
        requires
            bits == mask << offset,
            content & bits == 0,
            offset < 32,
    ;
}

proof fn lemma_spans_disjoint(offset: usize, width: u32, upper_offset: usize, upper_width: u32)
    requires
        offset + width <= upper_offset,
        upper_offset + upper_width <= 16,
    ensures
        ((((1u32 << width) - 1) as u32) << offset) & ((((1u32 << upper_width) - 1) as u32)
            << upper_offset) == 0,
{
    assert(((((1u32 << width) - 1) as u32) << offset) & ((((1u32 << upper_width) - 1) as u32)
        << upper_offset) == 0) by (bit_vector)
        requires
            offset + width <= upper_offset,
            upper_offset + upper_width <= 16,
    ;
}

proof fn lemma_reads_back(offset: usize, width: u32, mask: u32, value: u32, content: u32)
    requires
        offset + width <= 16,
        mask == ((1u32 << width) - 1) as u32,
    ensures
        (((content & !(mask << offset)) | ((value & mask) << offset)) & (mask << offset)) >> offset
            == value & mask,
{
    assert((((content & !(mask << offset)) | ((value & mask) << offset)) & (mask << offset))
        >> offset == value & mask) by (bit_vector)
        requires
            offset + width <= 16,
            mask == ((1u32 << width) - 1) as u32,
    ;
}

proof fn lemma_modify_keeps(
    bits: u32,
    other: u32,
    mask: u32,
    offset: usize,
    value: u32,
    content: u32,
)
    requires
        bits == mask << offset,
        bits & other == 0,
    ensures
        ((content & !bits) | ((value & mask) << offset)) & other == content & other,
{
    assert(((content & !bits) | ((value & mask) << offset)) & other == content & other)
        by (bit_vector)
        requires
            bits == mask << offset,
            bits & other == 0,
    ;
}

proof fn lemma_set_and_clear(offset: usize, width: u32, mask: u32, content: u32)
    requires
        1 <= width,
        offset + width <= 16,
        mask == ((1u32 << width) - 1) as u32,
    ensures
        ((content & !(mask << offset)) | ((mask & mask) << offset)) & (mask << offset) != 0,
        ((content & !(mask << offset)) | ((0u32 & mask) << offset)) & (mask << offset) == 0,
{
    assert(((content & !(mask << offset)) | ((mask & mask) << offset)) & (mask << offset) != 0)
        by (bit_vector)
        requires
            1 <= width,
            offset + width <= 16,
            mask == ((1u32 << width) - 1) as u32,
    ;
    assert(((content & !(mask << offset)) | ((0u32 & mask) << offset)) & (mask << offset) == 0)
        by (bit_vector)
        requires
            offset < 32,
    ;
}

} // verus!
