//! Instructions, the classes of opcode that introduce them, and the two
//! flags that an opcode carries in its low bits.

use crate::error::DecodeError;
use crate::registers::{lemma_register_name_letters, name_letters, Register};
use vstd::prelude::*;
use vstd::std_specs::convert::TryFromSpecImpl;

verus! {

/// Mask that keeps the six bits of an opcode which identify the instruction.
pub const INSTRUCTION_CLEAR: u8 = 0b1111_1100;

/// Bit of an opcode which says that the first register field of the operand
/// byte is the destination.
pub const DIRECTION: u8 = 0b0000_0010;

/// Bit of an opcode which says that the operands are words, not bytes.
pub const IS_WIDE: u8 = 0b0000_0001;

/// The fixed bits of the opcode of a register-to-register move.
pub const MOV_SIGNATURE: u8 = 0b1000_1000;

/// A decoded instruction.
#[derive(Clone, Copy, Debug, PartialEq, Eq, Structural)]
pub enum EightySixInstruction {
    /// Copies `source` into `destination`.
    MOV { destination: Register, source: Register },
}

impl EightySixInstruction {
    /// The instruction in assembly text: the mnemonic, a space, the
    /// destination, a comma, the source.
    pub open spec fn text(self) -> Seq<char> {
        match self {
            EightySixInstruction::MOV { destination, source } => "MOV "@ + destination.name_text()
                + ","@ + source.name_text(),
        }
    }

    /// Whether both operands have the same width. An opcode has one width
    /// flag for both, so every decoded instruction is well formed.
    pub open spec fn well_formed(self) -> bool {
        match self {
            EightySixInstruction::MOV { destination, source } => destination.is_wide()
                == source.is_wide(),
        }
    }

    /// Renders the instruction as one line of assembly text.
    pub fn to_string(&self) -> (line: String)
        ensures
            line@ == self.text(),
    {
        match self {
            EightySixInstruction::MOV { destination, source } => {
                let mut line = String::from_str("MOV ");
                line.append(destination.name());
                line.append(",");
                line.append(source.name());
                line
            },
        }
    }
}

/// The classes of instruction that the decoder knows, one for each decoding
/// rule.
#[derive(Clone, Copy, Debug, PartialEq, Eq, Structural)]
pub enum EightySixInstructionType {
    /// Register-to-register move.
    MOV,
}

impl EightySixInstructionType {
    /// The fixed bits by which an opcode of this class is known.
    pub open spec fn signature(self) -> u8 {
        match self {
            EightySixInstructionType::MOV => MOV_SIGNATURE,
        }
    }

    /// The number of bytes that an instruction of this class occupies,
    /// opcode included.
    pub open spec fn length(self) -> nat {
        match self {
            EightySixInstructionType::MOV => 2,
        }
    }

    /// The class of the instruction that `value` opens, if it opens one.
    pub open spec fn of_opcode(value: u8) -> Result<Self, DecodeError> {
        if value & INSTRUCTION_CLEAR == EightySixInstructionType::MOV.signature() {
            Ok(EightySixInstructionType::MOV)
        } else {
            Err(DecodeError::UnknownInstruction)
        }
    }

    /// The number of bytes that an instruction of this class occupies,
    /// opcode included.
    pub fn encoded_len(&self) -> (len: usize)
        ensures
            len == self.length(),
    {
        match self {
            EightySixInstructionType::MOV => 2,
        }
    }
}

impl TryFrom<u8> for EightySixInstructionType {
    type Error = DecodeError;

    /// Classifies an opcode by its upper six bits; the two flags in its low
    /// bits play no part.
    fn try_from(value: u8) -> (class: Result<Self, DecodeError>) {
        let cleaned_value: u8 = value & INSTRUCTION_CLEAR;
        if cleaned_value == MOV_SIGNATURE {
            Ok(EightySixInstructionType::MOV)
        } else {
            Err(DecodeError::UnknownInstruction)
        }
    }
}

impl TryFromSpecImpl<u8> for EightySixInstructionType {
    open spec fn obeys_try_from_spec() -> bool {
        true
    }

    open spec fn try_from_spec(value: u8) -> Result<Self, DecodeError> {
        Self::of_opcode(value)
    }
}

/// Whether the direction bit of an opcode is set.
pub open spec fn direction_flag(value: u8) -> bool {
    value & DIRECTION == DIRECTION
}

/// Whether the width bit of an opcode is set.
pub open spec fn wide_flag(value: u8) -> bool {
    value & IS_WIDE == IS_WIDE
}

/// Reads the direction flag and the width flag of an opcode, in that order.
pub fn get_direction_and_wide(value: u8) -> (flags: (bool, bool))
    ensures
        flags.0 == direction_flag(value),
        flags.1 == wide_flag(value),
{
    (value & DIRECTION == DIRECTION, value & IS_WIDE == IS_WIDE)
}

/// The opcodes of the register-to-register move are the four bytes from
/// `0x88` to `0x8B`; every other byte opens no known instruction.
pub proof fn lemma_mov_opcodes(value: u8)
    ensures
        EightySixInstructionType::of_opcode(value) == if 0x88 <= value <= 0x8B {
            Ok::<EightySixInstructionType, DecodeError>(EightySixInstructionType::MOV)
        } else {
            Err::<EightySixInstructionType, DecodeError>(DecodeError::UnknownInstruction)
        },
{
    assert((value & 0b1111_1100 == 0b1000_1000) <==> (0x88 <= value <= 0x8B)) by (bit_vector);
}

/// The class of an opcode does not depend on its two flags, and the flags
/// do not depend on each other: the width flag is the lowest binary digit of
/// the opcode, the direction flag the next one.
pub proof fn lemma_flags_are_digits(value: u8)
    ensures
        wide_flag(value) == (value % 2 == 1),
        direction_flag(value) == ((value / 2) % 2 == 1),
        EightySixInstructionType::of_opcode(value) == EightySixInstructionType::of_opcode(
            (value - value % 4) as u8,
        ),
{
    assert((value & 0b0000_0001 == 0b0000_0001) <==> (value % 2 == 1)) by (bit_vector);
    assert((value & 0b0000_0010 == 0b0000_0010) <==> ((value / 2) % 2 == 1)) by (bit_vector);
    let cleared: u8 = (value - value % 4) as u8;
    assert(cleared == value - value % 4 ==> cleared & 0b1111_1100 == value & 0b1111_1100)
        by (bit_vector);
}

/// A rendered instruction is nine characters long: four for the mnemonic
/// and its space, two for each register, one for the comma.
pub proof fn lemma_text_shape(instruction: EightySixInstruction)
    ensures
        instruction.text().len() == 9,
        instruction.text().subrange(0, 4) == "MOV "@,
        instruction.text()[6] == ',',
{
    reveal_strlit("MOV ");
    reveal_strlit(",");
    match instruction {
        EightySixInstruction::MOV { destination, source } => {
            lemma_register_name_letters(destination);
            lemma_register_name_letters(source);
        },
    }
}

/// The text tells the instruction: two instructions that render alike are
/// the same instruction.
pub proof fn lemma_text_injective(a: EightySixInstruction, b: EightySixInstruction)
    requires
        a.text() == b.text(),
    ensures
        a == b,
{
    reveal_strlit("MOV ");
    reveal_strlit(",");
    match (a, b) {
        (
            EightySixInstruction::MOV { destination: da, source: sa },
            EightySixInstruction::MOV { destination: db, source: sb },
        ) => {
            lemma_register_name_letters(da);
            lemma_register_name_letters(sa);
            lemma_register_name_letters(db);
            lemma_register_name_letters(sb);
            assert(a.text()[4] == name_letters(da).0);
            assert(a.text()[5] == name_letters(da).1);
            assert(a.text()[7] == name_letters(sa).0);
            assert(a.text()[8] == name_letters(sa).1);
            assert(b.text()[4] == name_letters(db).0);
            assert(b.text()[5] == name_letters(db).1);
            assert(b.text()[7] == name_letters(sb).0);
            assert(b.text()[8] == name_letters(sb).1);
        },
    }
}

} // verus!
