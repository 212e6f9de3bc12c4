//! The register table: from the fields of an operand byte to the sixteen
//! named registers.
//!
//! A register field is three bits wide. Its low two bits select one of four
//! groups, its third bit selects the alternate register of that group, and a
//! width flag that comes from the opcode says whether the operand is a byte or
//! a word.

use crate::error::DecodeError;
use vstd::prelude::*;
use vstd::std_specs::convert::TryFromSpecImpl;

verus! {

/// Mask that keeps the two bits of a register field which select the group.
pub const REGISTER_CLEAR: u8 = 0b0000_0011;

/// Bit of a register field which selects the alternate register of the group.
pub const IS_HIGH: u8 = 0b0000_0100;

/// The sixteen registers that an operand can name.
#[derive(Clone, Copy, Debug, PartialEq, Eq, Structural)]
pub enum Register {
    AL,
    AX,
    CL,
    CX,
    DL,
    DX,
    BL,
    BX,
    AH,
    SP,
    CH,
    BP,
    DH,
    SI,
    BH,
    DI,
}

/// The four register groups that the low two bits of a register field select.
#[derive(Clone, Copy, Debug, PartialEq, Eq, Structural)]
pub enum InternalRegisterName {
    A,
    C,
    D,
    B,
}

impl InternalRegisterName {
    /// The two-bit code that selects this group.
    pub open spec fn selector(self) -> u8 {
        match self {
            InternalRegisterName::A => 0b00,
            InternalRegisterName::C => 0b01,
            InternalRegisterName::D => 0b10,
            InternalRegisterName::B => 0b11,
        }
    }

    /// The letter of this group.
    pub open spec fn name_text(self) -> Seq<char> {
        match self {
            InternalRegisterName::A => "A"@,
            InternalRegisterName::C => "C"@,
            InternalRegisterName::D => "D"@,
            InternalRegisterName::B => "B"@,
        }
    }

    /// The letter of this group, as it stands in the names of its registers.
    pub fn name(&self) -> (text: &'static str)
        ensures
            text@ == self.name_text(),
    {
        match self {
            InternalRegisterName::A => "A",
            InternalRegisterName::C => "C",
            InternalRegisterName::D => "D",
            InternalRegisterName::B => "B",
        }
    }

    /// The letter of this group as an owned string.
    pub fn to_string(&self) -> (text: String)
        ensures
            text@ == self.name_text(),
    {
        self.name().to_owned()
    }

    /// The group that the low two bits of `value` select. Two bits have four
    /// values and there are four groups, so every byte selects one.
    pub open spec fn of_bits(value: u8) -> Self {
        let bits = value & REGISTER_CLEAR;
        if bits == 0b00 {
            InternalRegisterName::A
        } else if bits == 0b01 {
            InternalRegisterName::C
        } else if bits == 0b10 {
            InternalRegisterName::D
        } else {
            InternalRegisterName::B
        }
    }
}

impl TryFrom<u8> for InternalRegisterName {
    type Error = DecodeError;

    /// Reads the group out of the low two bits of `value`; the other bits are
    /// ignored. The error arm is there for fields wider than two bits: with
    /// this mask it is never taken.
    fn try_from(value: u8) -> (group: Result<Self, DecodeError>) {
        let bits: u8 = value & REGISTER_CLEAR;
        assert(value & 0b0000_0011 <= 0b11) by (bit_vector);
        match bits {
            0b00 => Ok(InternalRegisterName::A),
            0b01 => Ok(InternalRegisterName::C),
            0b10 => Ok(InternalRegisterName::D),
            0b11 => Ok(InternalRegisterName::B),
            _ => Err(DecodeError::UnknownRegister),
        }
    }
}

impl TryFromSpecImpl<u8> for InternalRegisterName {
    open spec fn obeys_try_from_spec() -> bool {
        true
    }

    open spec fn try_from_spec(value: u8) -> Result<Self, DecodeError> {
        Ok(Self::of_bits(value))
    }
}

/// The code of the group that a byte selects is the byte's low two bits.
pub proof fn lemma_group_of_bits(value: u8)
    ensures
        InternalRegisterName::of_bits(value).selector() == value & REGISTER_CLEAR,
        InternalRegisterName::of_bits(value).selector() == value % 4,
{
    assert(value & 0b0000_0011 <= 0b11) by (bit_vector);
    assert(value & 0b0000_0011 == value % 4) by (bit_vector);
}

/// A group is found again from its own code.
pub proof fn lemma_group_of_selector(group: InternalRegisterName)
    ensures
        InternalRegisterName::of_bits(group.selector()) == group,
{
    assert(0b00u8 & 0b0000_0011 == 0b00) by (bit_vector);
    assert(0b01u8 & 0b0000_0011 == 0b01) by (bit_vector);
    assert(0b10u8 & 0b0000_0011 == 0b10) by (bit_vector);
    assert(0b11u8 & 0b0000_0011 == 0b11) by (bit_vector);
}

impl Register {
    /// The name of this register in assembly text.
    pub open spec fn name_text(self) -> Seq<char> {
        match self {
            Register::AL => "AL"@,
            Register::AX => "AX"@,
            Register::CL => "CL"@,
            Register::CX => "CX"@,
            Register::DL => "DL"@,
            Register::DX => "DX"@,
            Register::BL => "BL"@,
            Register::BX => "BX"@,
            Register::AH => "AH"@,
            Register::SP => "SP"@,
            Register::CH => "CH"@,
            Register::BP => "BP"@,
            Register::DH => "DH"@,
            Register::SI => "SI"@,
            Register::BH => "BH"@,
            Register::DI => "DI"@,
        }
    }

    /// The name of this register in assembly text.
    pub fn name(&self) -> (text: &'static str)
        ensures
            text@ == self.name_text(),
    {
        match self {
            Register::AL => "AL",
            Register::AX => "AX",
            Register::CL => "CL",
            Register::CX => "CX",
            Register::DL => "DL",
            Register::DX => "DX",
            Register::BL => "BL",
            Register::BX => "BX",
            Register::AH => "AH",
            Register::SP => "SP",
            Register::CH => "CH",
            Register::BP => "BP",
            Register::DH => "DH",
            Register::SI => "SI",
            Register::BH => "BH",
            Register::DI => "DI",
        }
    }

    /// The name of this register as an owned string.
    pub fn to_string(&self) -> (text: String)
        ensures
            text@ == self.name_text(),
    {
        self.name().to_owned()
    }

    /// The group that this register belongs to in the encoding.
    pub open spec fn group(self) -> InternalRegisterName {
        match self {
            Register::AL | Register::AX | Register::AH | Register::SP => InternalRegisterName::A,
            Register::CL | Register::CX | Register::CH | Register::BP => InternalRegisterName::C,
            Register::DL | Register::DX | Register::DH | Register::SI => InternalRegisterName::D,
            Register::BL | Register::BX | Register::BH | Register::DI => InternalRegisterName::B,
        }
    }

    /// Whether this register is the alternate one of its group: the high byte
    /// among the byte registers, the pointer or index register among the words.
    pub open spec fn is_high(self) -> bool {
        match self {
            Register::AH | Register::CH | Register::DH | Register::BH => true,
            Register::SP | Register::BP | Register::SI | Register::DI => true,
            _ => false,
        }
    }

    /// Whether this register holds a word (sixteen bits) rather than a byte.
    pub open spec fn is_wide(self) -> bool {
        match self {
            Register::AX | Register::CX | Register::DX | Register::BX => true,
            Register::SP | Register::BP | Register::SI | Register::DI => true,
            _ => false,
        }
    }

    /// The three-bit field that names this register in an operand byte.
    pub open spec fn field(self) -> u8 {
        if self.is_high() {
            self.group().selector() | IS_HIGH
        } else {
            self.group().selector()
        }
    }
}

/// The register table: the register that a group, the alternate bit and the
/// width flag name together.
pub open spec fn register_of(group: InternalRegisterName, high: bool, wide: bool) -> Register {
    match (group, high, wide) {
        (InternalRegisterName::A, false, false) => Register::AL,
        (InternalRegisterName::A, false, true) => Register::AX,
        (InternalRegisterName::A, true, false) => Register::AH,
        (InternalRegisterName::A, true, true) => Register::SP,
        (InternalRegisterName::C, false, false) => Register::CL,
        (InternalRegisterName::C, false, true) => Register::CX,
        (InternalRegisterName::C, true, false) => Register::CH,
        (InternalRegisterName::C, true, true) => Register::BP,
        (InternalRegisterName::D, false, false) => Register::DL,
        (InternalRegisterName::D, false, true) => Register::DX,
        (InternalRegisterName::D, true, false) => Register::DH,
        (InternalRegisterName::D, true, true) => Register::SI,
        (InternalRegisterName::B, false, false) => Register::BL,
        (InternalRegisterName::B, false, true) => Register::BX,
        (InternalRegisterName::B, true, false) => Register::BH,
        (InternalRegisterName::B, true, true) => Register::DI,
    }
}

/// Looks a register up in the table by its group, its alternate bit and the
/// width of the operand.
pub fn get_register_from_annotation(
    register_annotation: (InternalRegisterName, bool),
    is_wide: bool,
) -> (register: Register)
    ensures
        register == register_of(register_annotation.0, register_annotation.1, is_wide),
        register.group() == register_annotation.0,
        register.is_high() == register_annotation.1,
        register.is_wide() == is_wide,
{
    match (register_annotation, is_wide) {
        ((InternalRegisterName::A, false), false) => Register::AL,
        ((InternalRegisterName::A, false), true) => Register::AX,
        ((InternalRegisterName::A, true), false) => Register::AH,
        ((InternalRegisterName::A, true), true) => Register::SP,
        ((InternalRegisterName::C, false), false) => Register::CL,
        ((InternalRegisterName::C, false), true) => Register::CX,
        ((InternalRegisterName::C, true), false) => Register::CH,
        ((InternalRegisterName::C, true), true) => Register::BP,
        ((InternalRegisterName::D, false), false) => Register::DL,
        ((InternalRegisterName::D, false), true) => Register::DX,
        ((InternalRegisterName::D, true), false) => Register::DH,
        ((InternalRegisterName::D, true), true) => Register::SI,
        ((InternalRegisterName::B, false), false) => Register::BL,
        ((InternalRegisterName::B, false), true) => Register::BX,
        ((InternalRegisterName::B, true), false) => Register::BH,
        ((InternalRegisterName::B, true), true) => Register::DI,
    }
}

/// Whether the alternate bit of a register field is set.
pub open spec fn high_bit(reg: u8) -> bool {
    reg & IS_HIGH == IS_HIGH
}

/// The register that a three-bit field names for an operand of the given
/// width. Bits above the third are ignored.
pub open spec fn register_of_field(reg: u8, wide: bool) -> Register {
    register_of(InternalRegisterName::of_bits(reg), high_bit(reg), wide)
}

/// The two registers that an operand byte names: first the one in bits 3 to
/// 5, then the one in bits 0 to 2.
pub open spec fn registers_of_byte(byte_b: u8, wide: bool) -> (Register, Register) {
    (register_of_field(byte_b >> 3, wide), register_of_field(byte_b, wide))
}

/// Splits a register field into its group and its alternate bit.
pub fn get_register_annotation(reg: u8) -> (annotation: Result<
    (InternalRegisterName, bool),
    DecodeError,
>)
    ensures
        annotation == Ok::<(InternalRegisterName, bool), DecodeError>(
            (InternalRegisterName::of_bits(reg), high_bit(reg)),
        ),
{
    Ok((InternalRegisterName::try_from(reg)?, (reg & IS_HIGH) == IS_HIGH))
}

/// Decodes the two register fields of an operand byte. The pair comes back
/// in the order of the fields; which of the two is the destination is for the
/// caller to decide.
pub fn get_registers_from_byte(byte_b: u8, is_wide: bool) -> (registers: Result<
    (Register, Register),
    DecodeError,
>)
    ensures
        registers == Ok::<(Register, Register), DecodeError>(registers_of_byte(byte_b, is_wide)),
{
    Ok(
        (
            get_register_from_annotation(get_register_annotation(byte_b >> 3)?, is_wide),
            get_register_from_annotation(get_register_annotation(byte_b)?, is_wide),
        ),
    )
}

/// The table names every register exactly once: two entries that hold the
/// same register are the same entry.
pub proof fn lemma_register_table_injective(
    group_a: InternalRegisterName,
    high_a: bool,
    wide_a: bool,
    group_b: InternalRegisterName,
    high_b: bool,
    wide_b: bool,
)
    requires
        register_of(group_a, high_a, wide_a) == register_of(group_b, high_b, wide_b),
    ensures
        group_a == group_b,
        high_a == high_b,
        wide_a == wide_b,
{
}

/// Every register stands in the table, at the entry that its own group,
/// alternate bit and width give.
pub proof fn lemma_register_table_complete(register: Register)
    ensures
        register_of(register.group(), register.is_high(), register.is_wide()) == register,
{
}

/// Reading a register's entry back from the table's result gives the entry
/// that was looked up.
pub proof fn lemma_register_table_round_trip(group: InternalRegisterName, high: bool, wide: bool)
    ensures
        register_of(group, high, wide).group() == group,
        register_of(group, high, wide).is_high() == high,
        register_of(group, high, wide).is_wide() == wide,
{
}

/// The field of a register that was decoded from a field is that field
/// again, and the register has the width that was asked for.
pub proof fn lemma_field_round_trip(reg: u8, wide: bool)
    ensures
        register_of_field(reg, wide).group().selector() == reg & REGISTER_CLEAR,
        register_of_field(reg, wide).is_high() == high_bit(reg),
        register_of_field(reg, wide).is_wide() == wide,
        register_of_field(reg, wide).field() == reg & 0b0000_0111,
{
    lemma_group_of_bits(reg);
    lemma_register_table_round_trip(InternalRegisterName::of_bits(reg), high_bit(reg), wide);
    assert(reg & 0b0000_0100 == 0b0000_0100 ==> (reg & 0b0000_0011) | 0b0000_0100 == reg
        & 0b0000_0111) by (bit_vector);
    assert(reg & 0b0000_0100 != 0b0000_0100 ==> reg & 0b0000_0011 == reg & 0b0000_0111)
        by (bit_vector);
}

/// Decoding an operand byte loses nothing of its two register fields: the
/// fields of the two registers, put back in their places, are the byte's low
/// six bits, and both registers have the width that was asked for.
pub proof fn lemma_operand_byte_round_trip(byte_b: u8, wide: bool)
    ensures
        ({
            let (first, second) = registers_of_byte(byte_b, wide);
            &&& first.group().selector() == (byte_b >> 3) & REGISTER_CLEAR
            &&& first.is_high() == high_bit(byte_b >> 3)
            &&& second.group().selector() == byte_b & REGISTER_CLEAR
            &&& second.is_high() == high_bit(byte_b)
            &&& first.is_wide() == wide
            &&& second.is_wide() == wide
            &&& (first.field() << 3) | second.field() == byte_b & 0b0011_1111
        }),
{
    lemma_field_round_trip(byte_b >> 3, wide);
    lemma_field_round_trip(byte_b, wide);
    assert((((byte_b >> 3) & 0b0000_0111) << 3) | (byte_b & 0b0000_0111) == byte_b & 0b0011_1111)
        by (bit_vector);
}

/// The two letters of a register's name.
pub open spec fn name_letters(register: Register) -> (char, char) {
    match register {
        Register::AL => ('A', 'L'),
        Register::AX => ('A', 'X'),
        Register::CL => ('C', 'L'),
        Register::CX => ('C', 'X'),
        Register::DL => ('D', 'L'),
        Register::DX => ('D', 'X'),
        Register::BL => ('B', 'L'),
        Register::BX => ('B', 'X'),
        Register::AH => ('A', 'H'),
        Register::SP => ('S', 'P'),
        Register::CH => ('C', 'H'),
        Register::BP => ('B', 'P'),
        Register::DH => ('D', 'H'),
        Register::SI => ('S', 'I'),
        Register::BH => ('B', 'H'),
        Register::DI => ('D', 'I'),
    }
}

/// A register's name is made of its two letters, and of nothing else.
pub proof fn lemma_register_name_letters(register: Register)
    ensures
        register.name_text() =~= seq![name_letters(register).0, name_letters(register).1],
{
    reveal_strlit("AL");
    reveal_strlit("AX");
    reveal_strlit("CL");
    reveal_strlit("CX");
    reveal_strlit("DL");
    reveal_strlit("DX");
    reveal_strlit("BL");
    reveal_strlit("BX");
    reveal_strlit("AH");
    reveal_strlit("SP");
    reveal_strlit("CH");
    reveal_strlit("BP");
    reveal_strlit("DH");
    reveal_strlit("SI");
    reveal_strlit("BH");
    reveal_strlit("DI");
}

/// No two registers share a name.
pub proof fn lemma_register_names_distinct(a: Register, b: Register)
    requires
        a.name_text() == b.name_text(),
    ensures
        a == b,
{
    lemma_register_name_letters(a);
    lemma_register_name_letters(b);
    assert(name_letters(a).0 == a.name_text()[0]);
    assert(name_letters(a).1 == a.name_text()[1]);
    assert(name_letters(b).0 == b.name_text()[0]);
    assert(name_letters(b).1 == b.name_text()[1]);
}

} // verus!
