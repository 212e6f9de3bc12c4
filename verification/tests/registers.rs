use eighty_six::error::DecodeError;
use eighty_six::registers::{
    get_register_annotation, get_register_from_annotation, get_registers_from_byte,
    InternalRegisterName, Register, IS_HIGH, REGISTER_CLEAR,
};

const GROUPS: [InternalRegisterName; 4] = [
    InternalRegisterName::A,
    InternalRegisterName::C,
    InternalRegisterName::D,
    InternalRegisterName::B,
];

const ALL_REGISTERS: [Register; 16] = [
    Register::AL,
    Register::AX,
    Register::CL,
    Register::CX,
    Register::DL,
    Register::DX,
    Register::BL,
    Register::BX,
    Register::AH,
    Register::SP,
    Register::CH,
    Register::BP,
    Register::DH,
    Register::SI,
    Register::BH,
    Register::DI,
];

/// The three-bit field and the width that name a register, written out
/// independently of the library's table.
fn encoding_of(register: Register) -> (u8, bool) {
    match register {
        Register::AL => (0b000, false),
        Register::CL => (0b001, false),
        Register::DL => (0b010, false),
        Register::BL => (0b011, false),
        Register::AH => (0b100, false),
        Register::CH => (0b101, false),
        Register::DH => (0b110, false),
        Register::BH => (0b111, false),
        Register::AX => (0b000, true),
        Register::CX => (0b001, true),
        Register::DX => (0b010, true),
        Register::BX => (0b011, true),
        Register::SP => (0b100, true),
        Register::BP => (0b101, true),
        Register::SI => (0b110, true),
        Register::DI => (0b111, true),
    }
}

#[test]
fn table_holds_the_documented_registers() {
    let lookup = get_register_from_annotation;
    assert_eq!(lookup((InternalRegisterName::A, false), false), Register::AL);
    assert_eq!(lookup((InternalRegisterName::A, false), true), Register::AX);
    assert_eq!(lookup((InternalRegisterName::A, true), false), Register::AH);
    assert_eq!(lookup((InternalRegisterName::A, true), true), Register::SP);
    assert_eq!(lookup((InternalRegisterName::C, false), false), Register::CL);
    assert_eq!(lookup((InternalRegisterName::C, false), true), Register::CX);
    assert_eq!(lookup((InternalRegisterName::C, true), false), Register::CH);
    assert_eq!(lookup((InternalRegisterName::C, true), true), Register::BP);
    assert_eq!(lookup((InternalRegisterName::D, false), false), Register::DL);
    assert_eq!(lookup((InternalRegisterName::D, false), true), Register::DX);
    assert_eq!(lookup((InternalRegisterName::D, true), false), Register::DH);
    assert_eq!(lookup((InternalRegisterName::D, true), true), Register::SI);
    assert_eq!(lookup((InternalRegisterName::B, false), false), Register::BL);
    assert_eq!(lookup((InternalRegisterName::B, false), true), Register::BX);
    assert_eq!(lookup((InternalRegisterName::B, true), false), Register::BH);
    assert_eq!(lookup((InternalRegisterName::B, true), true), Register::DI);
}

#[test]
fn table_entries_are_pairwise_distinct() {
    let mut seen: Vec<Register> = Vec::new();
    for group in GROUPS {
        for high in [false, true] {
            for wide in [false, true] {
                let register = get_register_from_annotation((group, high), wide);
                assert!(!seen.contains(&register), "{:?} stands twice in the table", register);
                seen.push(register);
            }
        }
    }
    assert_eq!(seen.len(), 16);
    for register in ALL_REGISTERS {
        assert!(seen.contains(&register), "{:?} is missing from the table", register);
    }
}

#[test]
fn group_is_read_from_the_low_two_bits() {
    assert_eq!(InternalRegisterName::try_from(0b00), Ok(InternalRegisterName::A));
    assert_eq!(InternalRegisterName::try_from(0b01), Ok(InternalRegisterName::C));
    assert_eq!(InternalRegisterName::try_from(0b10), Ok(InternalRegisterName::D));
    assert_eq!(InternalRegisterName::try_from(0b11), Ok(InternalRegisterName::B));
    assert_eq!(InternalRegisterName::try_from(0b1111_1110), Ok(InternalRegisterName::D));
}

#[test]
fn every_byte_selects_a_group() {
    for value in 0..=u8::MAX {
        let group = InternalRegisterName::try_from(value);
        assert_eq!(group, Ok(GROUPS[(value & REGISTER_CLEAR) as usize]));
        assert_ne!(group, Err(DecodeError::UnknownRegister));
    }
}

#[test]
fn annotation_splits_group_and_alternate_bit() {
    assert_eq!(get_register_annotation(0b000), Ok((InternalRegisterName::A, false)));
    assert_eq!(get_register_annotation(0b101), Ok((InternalRegisterName::C, true)));
    assert_eq!(get_register_annotation(0b110), Ok((InternalRegisterName::D, true)));
    assert_eq!(get_register_annotation(0b011), Ok((InternalRegisterName::B, false)));
    // Bits above the third play no part.
    assert_eq!(get_register_annotation(0b1101_1011), Ok((InternalRegisterName::B, false)));
    for reg in 0..=u8::MAX {
        let (_, high) = get_register_annotation(reg).unwrap();
        assert_eq!(high, reg & IS_HIGH != 0);
    }
}

#[test]
fn operand_byte_names_two_registers_in_field_order() {
    assert_eq!(get_registers_from_byte(0xD9, true), Ok((Register::BX, Register::CX)));
    assert_eq!(get_registers_from_byte(0xD9, false), Ok((Register::BL, Register::CL)));
    assert_eq!(get_registers_from_byte(0xE5, false), Ok((Register::AH, Register::CH)));
    assert_eq!(get_registers_from_byte(0xE5, true), Ok((Register::SP, Register::BP)));
    assert_eq!(get_registers_from_byte(0xFC, true), Ok((Register::DI, Register::SP)));
    assert_eq!(get_registers_from_byte(0xC0, false), Ok((Register::AL, Register::AL)));
    assert_eq!(get_registers_from_byte(0x37, true), Ok((Register::SI, Register::DI)));
}

#[test]
fn operand_byte_fields_survive_decoding() {
    for byte in 0..=u8::MAX {
        for wide in [false, true] {
            let (first, second) = get_registers_from_byte(byte, wide).unwrap();
            let (first_field, first_wide) = encoding_of(first);
            let (second_field, second_wide) = encoding_of(second);
            assert_eq!(first_field, (byte >> 3) & 0b111);
            assert_eq!(second_field, byte & 0b111);
            assert_eq!(first_field & REGISTER_CLEAR, (byte >> 3) & 0b11);
            assert_eq!(second_field & REGISTER_CLEAR, byte & 0b11);
            assert_eq!(first_field & IS_HIGH != 0, byte & 0b0010_0000 != 0);
            assert_eq!(second_field & IS_HIGH != 0, byte & 0b0000_0100 != 0);
            assert_eq!((first_field << 3) | second_field, byte & 0b0011_1111);
            assert_eq!(first_wide, wide);
            assert_eq!(second_wide, wide);
        }
    }
}

#[test]
fn mode_bits_of_the_operand_byte_are_ignored() {
    for byte in 0..=u8::MAX {
        for wide in [false, true] {
            assert_eq!(
                get_registers_from_byte(byte, wide),
                get_registers_from_byte(byte & 0b0011_1111, wide)
            );
        }
    }
}

#[test]
fn register_names() {
    let expected = [
        "AL", "AX", "CL", "CX", "DL", "DX", "BL", "BX", "AH", "SP", "CH", "BP", "DH", "SI", "BH",
        "DI",
    ];
    for (register, name) in ALL_REGISTERS.iter().zip(expected) {
        assert_eq!(register.name(), name);
        assert_eq!(register.to_string(), name.to_string());
    }
}

#[test]
fn register_names_are_pairwise_distinct() {
    for (i, a) in ALL_REGISTERS.iter().enumerate() {
        for (j, b) in ALL_REGISTERS.iter().enumerate() {
            assert_eq!(a.name() == b.name(), i == j);
        }
    }
}

#[test]
fn group_names() {
    assert_eq!(InternalRegisterName::A.name(), "A");
    assert_eq!(InternalRegisterName::C.name(), "C");
    assert_eq!(InternalRegisterName::D.name(), "D");
    assert_eq!(InternalRegisterName::B.name(), "B");
    assert_eq!(InternalRegisterName::D.to_string(), String::from("D"));
}
