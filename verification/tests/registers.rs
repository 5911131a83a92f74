use stm32f4xx_usart::fields::{Field, FieldValue, BRR, CR1, CR2, CR3, GTPR, SR};
use stm32f4xx_usart::registers::{get_address_dr, Register, UsartRegisters};

fn all_fields() -> Vec<Field> {
    let mut all = Vec::new();
    for field in [
        SR::CTS, SR::LBD, SR::TXE, SR::TC, SR::RXNE, SR::IDLE, SR::ORE, SR::NF, SR::FE, SR::PE,
    ] {
        all.push(Field::SR(field));
    }
    for field in [BRR::DIV_Mantissa, BRR::DIV_Fraction] {
        all.push(Field::BRR(field));
    }
    for field in [
        CR1::OVER8, CR1::UE, CR1::M, CR1::WAKE, CR1::PCE, CR1::PS, CR1::PEIE, CR1::TXEIE,
        CR1::TCIE, CR1::RXNEIE, CR1::IDLEIE, CR1::TE, CR1::RE, CR1::RWU, CR1::SBK,
    ] {
        all.push(Field::CR1(field));
    }
    for field in [
        CR2::LINEN, CR2::STOP, CR2::CLKEN, CR2::CPOL, CR2::CPHA, CR2::LBCL, CR2::LBDIE,
        CR2::LBDL, CR2::ADD,
    ] {
        all.push(Field::CR2(field));
    }
    for field in [
        CR3::ONEBIT, CR3::CTSIE, CR3::CTSE, CR3::RTSE, CR3::DMAT, CR3::DMAR, CR3::SCEN,
        CR3::NACK, CR3::HDSEL, CR3::IRLP, CR3::IREN, CR3::EIE,
    ] {
        all.push(Field::CR3(field));
    }
    for field in [GTPR::GT, GTPR::PSC] {
        all.push(Field::GTPR(field));
    }
    all
}

/// The bits of the fields of one register, put together.
fn covered(register: Register) -> u32 {
    let mut bits: u32 = 0;
    for field in all_fields() {
        if field.register() == register {
            let own = field.set().modify(0);
            assert_eq!(bits & own, 0);
            bits |= own;
        }
    }
    bits
}

#[test]
fn fields_cover_their_registers_without_overlap() {
    assert_eq!(covered(Register::SR), 0x03FF);
    assert_eq!(covered(Register::DR), 0);
    assert_eq!(covered(Register::BRR), 0xFFFF);
    assert_eq!(covered(Register::CR1), 0xBFFF);
    assert_eq!(covered(Register::CR2), 0x7F6F);
    assert_eq!(covered(Register::CR3), 0x0FFF);
    assert_eq!(covered(Register::GTPR), 0xFFFF);
}

#[test]
fn setting_and_clearing_touch_one_field() {
    for field in all_fields() {
        for content in [0, !0, 0xA5A5_5A5A] {
            assert!(field.is_set(field.set().modify(content)));
            assert!(!field.is_set(field.clear().modify(content)));
            for other in all_fields() {
                if other.register() == field.register() && other != field {
                    assert_eq!(
                        other.is_set(field.set().modify(content)),
                        other.is_set(content)
                    );
                    assert_eq!(
                        other.is_set(field.clear().modify(content)),
                        other.is_set(content)
                    );
                }
            }
        }
    }
}

#[test]
fn clearing_undoes_setting() {
    for field in all_fields() {
        let content = field.clear().modify(0x1234_5678);
        assert_eq!(field.clear().modify(field.set().modify(content)), content);
    }
}

#[test]
fn a_value_is_moved_to_its_field() {
    let mantissa = FieldValue { field: Field::BRR(BRR::DIV_Mantissa), value: 0x8 };
    assert_eq!(mantissa.modify(0), 0x80);
    assert_eq!(mantissa.modify(0xFFFF_FFFF), 0xFFFF_008F);
    assert_eq!(mantissa.modify(mantissa.modify(0x1234)), mantissa.modify(0x1234));
}

#[test]
fn a_value_loses_what_its_field_cannot_hold() {
    let stop = FieldValue { field: Field::CR2(CR2::STOP), value: 0b111 };
    assert_eq!(stop.modify(0), 0x3000);
    let add = FieldValue { field: Field::CR2(CR2::ADD), value: 0x15 };
    assert_eq!(add.modify(0xFF), 0xF5);
}

#[test]
fn masks_are_as_wide_as_their_fields() {
    assert_eq!(Field::SR(SR::CTS).mask(), 0x1);
    assert_eq!(Field::CR2(CR2::STOP).mask(), 0x3);
    assert_eq!(Field::BRR(BRR::DIV_Fraction).mask(), 0xF);
    assert_eq!(Field::GTPR(GTPR::GT).mask(), 0xFF);
    assert_eq!(Field::BRR(BRR::DIV_Mantissa).mask(), 0xFFF);
    assert_eq!(Field::BRR(BRR::DIV_Mantissa).offset(), 4);
    assert_eq!(Field::GTPR(GTPR::GT).numbits(), 8);
}

#[test]
fn any_bit_of_a_field_counts_as_set() {
    assert!(Field::CR2(CR2::STOP).is_set(0x2000));
    assert!(Field::CR2(CR2::STOP).is_set(0x1000));
    assert!(!Field::CR2(CR2::STOP).is_set(0x4FFF));
}

#[test]
fn registers_are_read_written_and_modified_one_at_a_time() {
    let mut block = UsartRegisters { sr: 1, dr: 2, brr: 3, cr1: 4, cr2: 5, cr3: 6, gtpr: 7 };
    let registers = [
        Register::SR,
        Register::DR,
        Register::BRR,
        Register::CR1,
        Register::CR2,
        Register::CR3,
        Register::GTPR,
    ];
    for (i, register) in registers.iter().enumerate() {
        assert_eq!(register.offset() as usize, 4 * i);
        assert_eq!(block.read(*register) as usize, i + 1);
        block.write(*register, 0);
        assert_eq!(block.read(*register), 0);
    }
    block.modify(Field::CR3(CR3::DMAT).set());
    assert_eq!(block.cr3, 0x80);
    assert!(block.is_set(Field::CR3(CR3::DMAT)));
    assert!(!block.is_set(Field::CR1(CR1::TXEIE)));
    block.modify(Field::CR3(CR3::DMAT).clear());
    assert_eq!(block.cr3, 0);
}

#[test]
fn the_data_register_comes_second() {
    assert_eq!(get_address_dr(0x4000_4400), 0x4000_4404);
}
