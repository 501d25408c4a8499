use bugboy::gb_opcodes::{
    AluOp, Cond, Indirect, Operand8, Operation, Reg16, SecondOpAction, SecondOpRegister,
    SecondOpType, StackPair,
};

#[test]
fn primary_table_examples() {
    assert_eq!(Operation::from_u8(0x00), Some(Operation::Nop));
    assert_eq!(Operation::from_u8(0x3E), Some(Operation::LdImm(Operand8::A)));
    assert_eq!(Operation::from_u8(0x78), Some(Operation::Ld(Operand8::A, Operand8::B)));
    assert_eq!(Operation::from_u8(0x77), Some(Operation::Ld(Operand8::AtHl, Operand8::A)));
    assert_eq!(Operation::from_u8(0x76), Some(Operation::Halt));
    assert_eq!(Operation::from_u8(0xC3), Some(Operation::Jp(Cond::Always)));
    assert_eq!(Operation::from_u8(0x20), Some(Operation::Jr(Cond::NotZero)));
    assert_eq!(Operation::from_u8(0xCB), Some(Operation::Prefix));
    assert_eq!(Operation::from_u8(0xBE), Some(Operation::Alu(AluOp::Cp, Operand8::AtHl)));
    assert_eq!(Operation::from_u8(0xEE), Some(Operation::AluImm(AluOp::Xor)));
    assert_eq!(Operation::from_u8(0x2A), Some(Operation::LdAFrom(Indirect::HlInc)));
    assert_eq!(Operation::from_u8(0xE0), Some(Operation::LdAInto(Indirect::HighImm)));
    assert_eq!(Operation::from_u8(0x31), Some(Operation::Ld16Imm(Reg16::Sp)));
    assert_eq!(Operation::from_u8(0xF1), Some(Operation::Pop(StackPair::Af)));
    assert_eq!(Operation::from_u8(0xFF), Some(Operation::Rst(0x38)));
    assert_eq!(Operation::from_u8(0xF3), Some(Operation::Ei));
    assert_eq!(Operation::from_u8(0xFB), Some(Operation::Di));
}

#[test]
fn unmapped_primary_bytes() {
    let unmapped: Vec<u8> = (0..=255u8).filter(|b| Operation::from_u8(*b).is_none()).collect();
    assert_eq!(
        unmapped,
        vec![0x37, 0x3F, 0xD3, 0xDB, 0xDD, 0xE3, 0xE4, 0xEB, 0xEC, 0xED, 0xF4, 0xFC, 0xFD]
    );
}

#[test]
fn primary_table_is_one_to_one() {
    let ops: Vec<Operation> = (0..=255u8).filter_map(Operation::from_u8).collect();
    assert_eq!(ops.len(), 243);
    for i in 0..ops.len() {
        for j in (i + 1)..ops.len() {
            assert_ne!(ops[i], ops[j]);
        }
    }
}

#[test]
fn secondary_fields() {
    assert_eq!(SecondOpType::from_u8(0x07), SecondOpType::ROTATE_SHIFT);
    assert_eq!(SecondOpType::from_u8(0x7C), SecondOpType::BIT_CHECK);
    assert_eq!(SecondOpType::from_u8(0x86), SecondOpType::RESET);
    assert_eq!(SecondOpType::from_u8(0xFF), SecondOpType::SET);
    assert_eq!(SecondOpAction::from_u8(0x00), SecondOpAction::RLC);
    assert_eq!(SecondOpAction::from_u8(0x08), SecondOpAction::RRC);
    assert_eq!(SecondOpAction::from_u8(0x10), SecondOpAction::RL);
    assert_eq!(SecondOpAction::from_u8(0x18), SecondOpAction::RR);
    assert_eq!(SecondOpAction::from_u8(0x20), SecondOpAction::SLA);
    assert_eq!(SecondOpAction::from_u8(0x28), SecondOpAction::SRA);
    assert_eq!(SecondOpAction::from_u8(0x30), SecondOpAction::SWAP);
    assert_eq!(SecondOpAction::from_u8(0x3F), SecondOpAction::SRL);
    assert_eq!(SecondOpRegister::from_u8(0x00), SecondOpRegister::B);
    assert_eq!(SecondOpRegister::from_u8(0x01), SecondOpRegister::C);
    assert_eq!(SecondOpRegister::from_u8(0x02), SecondOpRegister::D);
    assert_eq!(SecondOpRegister::from_u8(0x03), SecondOpRegister::E);
    assert_eq!(SecondOpRegister::from_u8(0x04), SecondOpRegister::H);
    assert_eq!(SecondOpRegister::from_u8(0x05), SecondOpRegister::L);
    assert_eq!(SecondOpRegister::from_u8(0x06), SecondOpRegister::mHL);
    assert_eq!(SecondOpRegister::from_u8(0xC7), SecondOpRegister::A);
    assert_eq!(SecondOpRegister::from_u8(0x06).operand(), Operand8::AtHl);
}
