//! The instruction assembler: from a cursor into a byte stream to one
//! instruction and the number of bytes it took, and from a whole stream to
//! the list of its instructions.

use crate::error::DecodeError;
use crate::instructions::{
    direction_flag, get_direction_and_wide, wide_flag, EightySixInstruction,
    EightySixInstructionType,
};
use crate::registers::{
    get_registers_from_byte, lemma_operand_byte_round_trip, registers_of_byte,
};
use vstd::prelude::*;

verus! {

/// The move that an opcode and its operand byte encode. With the direction
/// flag set the first register field of the operand byte is the destination,
/// without it the second.
pub open spec fn mov_of(opcode: u8, operand: u8) -> EightySixInstruction {
    let (first, second) = registers_of_byte(operand, wide_flag(opcode));
    if direction_flag(opcode) {
        EightySixInstruction::MOV { destination: first, source: second }
    } else {
        EightySixInstruction::MOV { destination: second, source: first }
    }
}

/// The outcome of decoding the instruction that starts at `cursor`: the
/// instruction and the number of bytes it occupies, or the reason why there
/// is none.
pub open spec fn decode_at(stream: Seq<u8>, cursor: int) -> Result<
    (EightySixInstruction, usize),
    DecodeError,
> {
    if !(0 <= cursor < stream.len()) {
        Err(DecodeError::TruncatedStream)
    } else {
        match EightySixInstructionType::of_opcode(stream[cursor]) {
            Err(error) => Err(error),
            Ok(class) => if cursor + class.length() > stream.len() {
                Err(DecodeError::TruncatedStream)
            } else {
                match class {
                    EightySixInstructionType::MOV => Ok(
                        (mov_of(stream[cursor], stream[cursor + 1]), class.length() as usize),
                    ),
                }
            },
        }
    }
}

/// Decodes the instruction that starts at `cursor` and says how many bytes
/// it took, so that the caller can move on to the next one.
pub fn decode_instruction(instruction_stream: &[u8], cursor: usize) -> (step: Result<
    (EightySixInstruction, usize),
    DecodeError,
>)
    ensures
        step == decode_at(instruction_stream@, cursor as int),
        step matches Ok((instruction, consumed)) ==> {
            &&& instruction.well_formed()
            &&& 0 < consumed
            &&& cursor + consumed <= instruction_stream@.len()
        },
{
    if cursor >= instruction_stream.len() {
        return Err(DecodeError::TruncatedStream);
    }
    let byte_a = instruction_stream[cursor];
    let instruction_type = EightySixInstructionType::try_from(byte_a)?;

    // Each class says how long its instructions are; make sure the stream
    // holds that many bytes before reading them.
    let bytes_jump = instruction_type.encoded_len();
    if bytes_jump > instruction_stream.len() - cursor {
        return Err(DecodeError::TruncatedStream);
    }
    match instruction_type {
        EightySixInstructionType::MOV => {
            let byte_b = instruction_stream[cursor + 1];
            let (direction, is_wide) = get_direction_and_wide(byte_a);
            let (mut register_a, mut register_b) = get_registers_from_byte(byte_b, is_wide)?;

            // Without the direction flag the first field is the source.
            if !direction {
                core::mem::swap(&mut register_a, &mut register_b);
            }
            proof {
                lemma_operand_byte_round_trip(byte_b, is_wide);
            }
            Ok(
                (
                    EightySixInstruction::MOV { destination: register_a, source: register_b },
                    bytes_jump,
                ),
            )
        },
    }
}

/// The outcome of decoding the stream from `cursor` to its end: the
/// instructions in stream order, or the first failure met on the way.
pub open spec fn decode_from(stream: Seq<u8>, cursor: int) -> Result<
    Seq<EightySixInstruction>,
    DecodeError,
>
    decreases stream.len() - cursor,
{
    if cursor >= stream.len() {
        Ok(Seq::empty())
    } else {
        match decode_at(stream, cursor) {
            Err(error) => Err(error),
            Ok((instruction, consumed)) => match decode_from(stream, cursor + consumed) {
                Err(error) => Err(error),
                Ok(rest) => Ok(seq![instruction] + rest),
            },
        }
    }
}

/// The outcome of decoding a whole stream.
pub open spec fn decode_stream(stream: Seq<u8>) -> Result<Seq<EightySixInstruction>, DecodeError> {
    decode_from(stream, 0)
}

/// Whether every byte at which an instruction starts is a known opcode.
/// Instructions are two bytes long, so they start at the even offsets.
pub open spec fn opcodes_known(stream: Seq<u8>) -> bool {
    forall|k: int|
        0 <= k < stream.len() && k % 2 == 0 ==> EightySixInstructionType::of_opcode(
            #[trigger] stream[k],
        ) is Ok
}

/// The moves that the byte pairs of a stream encode, pair by pair.
pub open spec fn moves_of(stream: Seq<u8>) -> Seq<EightySixInstruction> {
    Seq::new(stream.len() / 2, |i: int| mov_of(stream[2 * i], stream[2 * i + 1]))
}

/// The outcome of decoding a whole stream, said at once rather than step
/// by step. A byte at an even offset that opens no known instruction makes
/// the stream fail as unknown, wherever it stands; else a stream of odd
/// length fails as truncated; else the stream decodes to the moves of its
/// byte pairs.
pub open spec fn listing_of(stream: Seq<u8>) -> Result<Seq<EightySixInstruction>, DecodeError> {
    if !opcodes_known(stream) {
        Err(DecodeError::UnknownInstruction)
    } else if stream.len() % 2 == 1 {
        Err(DecodeError::TruncatedStream)
    } else {
        Ok(moves_of(stream))
    }
}

/// Whether `parsed` reports `outcome`: the same failure, or a vector that
/// holds the same instructions in the same order.
pub open spec fn reports(
    parsed: Result<Vec<EightySixInstruction>, DecodeError>,
    outcome: Result<Seq<EightySixInstruction>, DecodeError>,
) -> bool {
    match parsed {
        Ok(instructions) => outcome == Ok::<Seq<EightySixInstruction>, DecodeError>(
            instructions@,
        ),
        Err(error) => outcome == Err::<Seq<EightySixInstruction>, DecodeError>(error),
    }
}

/// Decodes a whole stream, instruction after instruction. Either every byte
/// is accounted for and the instructions come back in stream order, or the
/// first failure comes back and no instruction does.
pub fn parse_instructions(instruction_stream: Vec<u8>) -> (parsed: Result<
    Vec<EightySixInstruction>,
    DecodeError,
>)
    ensures
        reports(parsed, decode_stream(instruction_stream@)),
        reports(parsed, listing_of(instruction_stream@)),
        parsed matches Ok(instructions) ==> forall|i: int|
            0 <= i < instructions@.len() ==> (#[trigger] instructions@[i]).well_formed(),
{
    proof {
        lemma_decode_stream_outcome(instruction_stream@);
    }
    let mut parsed_instructions: Vec<EightySixInstruction> = Vec::new();
    let mut instruction_read_idx: usize = 0;
    while instruction_read_idx < instruction_stream.len()
        invariant
            instruction_read_idx <= instruction_stream@.len(),
            decode_stream(instruction_stream@) == listing_of(instruction_stream@),
            decode_stream(instruction_stream@) == match decode_from(
                instruction_stream@,
                instruction_read_idx as int,
            ) {
                Ok(rest) => Ok::<Seq<EightySixInstruction>, DecodeError>(
                    parsed_instructions@ + rest,
                ),
                Err(error) => Err(error),
            },
            forall|i: int|
                0 <= i < parsed_instructions@.len() ==> (
                #[trigger] parsed_instructions@[i]).well_formed(),
        decreases instruction_stream@.len() - instruction_read_idx,
    {
        let (instruction, bytes_jump) = decode_instruction(
            instruction_stream.as_slice(),
            instruction_read_idx,
        )?;
        proof {
            let rest = decode_from(instruction_stream@, instruction_read_idx + bytes_jump);
            if rest is Ok {
                assert(parsed_instructions@ + (seq![instruction] + rest.unwrap())
                    =~= parsed_instructions@.push(instruction) + rest.unwrap());
            }
        }
        parsed_instructions.push(instruction);

        // Jump the relevant number of bytes for this instruction
        instruction_read_idx += bytes_jump;
    }
    proof {
        assert(parsed_instructions@ + Seq::<EightySixInstruction>::empty()
            =~= parsed_instructions@);
    }
    Ok(parsed_instructions)
}

/// The text of each instruction of a list, in the same order.
pub open spec fn rendered(instructions: Seq<EightySixInstruction>) -> Seq<Seq<char>> {
    Seq::new(instructions.len(), |i: int| instructions[i].text())
}

/// Renders a list of instructions, one line of assembly text for each.
pub fn render_instructions(instructions: &Vec<EightySixInstruction>) -> (lines: Vec<String>)
    ensures
        lines@.len() == instructions@.len(),
        forall|i: int|
            0 <= i < lines@.len() ==> (#[trigger] lines@[i])@ == rendered(instructions@)[i],
{
    let mut lines: Vec<String> = Vec::new();
    let mut idx: usize = 0;
    while idx < instructions.len()
        invariant
            idx <= instructions@.len(),
            lines@.len() == idx,
            forall|i: int|
                0 <= i < lines@.len() ==> (#[trigger] lines@[i])@ == instructions@[i].text(),
        decreases instructions@.len() - idx,
    {
        lines.push(instructions[idx].to_string());
        idx += 1;
    }
    lines
}

/// `opcodes_known` for the part of the stream that starts at `cursor`.
spec fn opcodes_known_from(stream: Seq<u8>, cursor: int) -> bool {
    forall|k: int|
        cursor <= k < stream.len() && (k - cursor) % 2 == 0
            ==> EightySixInstructionType::of_opcode(#[trigger] stream[k]) is Ok
}

/// `moves_of` for the part of the stream that starts at `cursor`.
spec fn moves_from(stream: Seq<u8>, cursor: int) -> Seq<EightySixInstruction> {
    Seq::new(
        ((stream.len() - cursor) / 2) as nat,
        |i: int| mov_of(stream[cursor + 2 * i], stream[cursor + 2 * i + 1]),
    )
}

/// Decoding from `cursor` on comes to what the byte pairs from `cursor` on
/// say, by induction on what is left of the stream.
proof fn lemma_decode_from_outcome(stream: Seq<u8>, cursor: int)
    requires
        0 <= cursor <= stream.len(),
    ensures
        decode_from(stream, cursor) == if !opcodes_known_from(stream, cursor) {
            Err::<Seq<EightySixInstruction>, DecodeError>(DecodeError::UnknownInstruction)
        } else if (stream.len() - cursor) % 2 == 1 {
            Err(DecodeError::TruncatedStream)
        } else {
            Ok(moves_from(stream, cursor))
        },
    decreases stream.len() - cursor,
{
    if cursor == stream.len() {
        assert(moves_from(stream, cursor) =~= Seq::empty());
    } else if EightySixInstructionType::of_opcode(stream[cursor]) is Err {
        assert(!opcodes_known_from(stream, cursor));
    } else if cursor + 1 == stream.len() {
        assert(opcodes_known_from(stream, cursor));
    } else {
        lemma_decode_from_outcome(stream, cursor + 2);
        assert(opcodes_known_from(stream, cursor) == opcodes_known_from(stream, cursor + 2));
        if opcodes_known_from(stream, cursor) && (stream.len() - cursor) % 2 == 0 {
            let first = mov_of(stream[cursor], stream[cursor + 1]);
            assert(moves_from(stream, cursor) =~= seq![first] + moves_from(stream, cursor + 2));
        }
    }
}

/// Decoding step by step and reading the listing off the byte pairs come
/// to the same outcome.
pub proof fn lemma_decode_stream_outcome(stream: Seq<u8>)
    ensures
        decode_stream(stream) == listing_of(stream),
{
    lemma_decode_from_outcome(stream, 0);
    assert(opcodes_known_from(stream, 0) == opcodes_known(stream));
    assert(moves_from(stream, 0) =~= moves_of(stream));
}

/// Both operands of a decoded move have the width that the opcode's width
/// flag gives.
pub proof fn lemma_mov_well_formed(opcode: u8, operand: u8)
    ensures
        mov_of(opcode, operand).well_formed(),
        mov_of(opcode, operand) matches EightySixInstruction::MOV { destination, source }
            && destination.is_wide() == wide_flag(opcode) && source.is_wide() == wide_flag(opcode),
{
    lemma_operand_byte_round_trip(operand, wide_flag(opcode));
}

/// The direction flag alone decides which operand is the destination: two
/// opcodes that differ in that flag only decode the same operand byte to the
/// same two registers, with destination and source exchanged.
pub proof fn lemma_direction_exchanges_operands(opcode_a: u8, opcode_b: u8, operand: u8)
    requires
        wide_flag(opcode_a) == wide_flag(opcode_b),
        direction_flag(opcode_a) != direction_flag(opcode_b),
    ensures
        mov_of(opcode_a, operand) matches EightySixInstruction::MOV { destination, source }
            && mov_of(opcode_b, operand) == (EightySixInstruction::MOV {
            destination: source,
            source: destination,
        }),
{
}

/// Instructions do not depend on their neighbours: a stream that is cut
/// where an instruction ends decodes to what its two parts decode to, one
/// list after the other, and fails as its second part fails.
pub proof fn lemma_decode_concatenation(head: Seq<u8>, tail: Seq<u8>)
    requires
        decode_stream(head) is Ok,
    ensures
        decode_stream(head + tail) == match decode_stream(tail) {
            Ok(rest) => Ok::<Seq<EightySixInstruction>, DecodeError>(
                decode_stream(head).unwrap() + rest,
            ),
            Err(error) => Err(error),
        },
{
    let whole = head + tail;
    lemma_decode_stream_outcome(head);
    lemma_decode_stream_outcome(tail);
    lemma_decode_stream_outcome(whole);
    assert(head.len() % 2 == 0);
    assert(opcodes_known(whole) ==> opcodes_known(tail)) by {
        if opcodes_known(whole) {
            assert forall|k: int| 0 <= k < tail.len() && k % 2 == 0 implies
                EightySixInstructionType::of_opcode(#[trigger] tail[k]) is Ok by {
                assert(whole[k + head.len()] == tail[k]);
            }
        }
    }
    assert(opcodes_known(tail) ==> opcodes_known(whole)) by {
        if opcodes_known(tail) {
            assert forall|k: int| 0 <= k < whole.len() && k % 2 == 0 implies
                EightySixInstructionType::of_opcode(#[trigger] whole[k]) is Ok by {
                if k < head.len() {
                    assert(whole[k] == head[k]);
                } else {
                    assert(whole[k] == tail[k - head.len()]);
                }
            }
        }
    }
    if decode_stream(tail) is Ok {
        assert(moves_of(whole) =~= moves_of(head) + moves_of(tail));
    }
}

/// A stream whose first byte opens no known instruction fails as unknown,
/// whatever follows that byte.
pub proof fn lemma_unknown_leading_opcode(stream: Seq<u8>)
    requires
        stream.len() > 0,
        EightySixInstructionType::of_opcode(stream[0]) is Err,
    ensures
        decode_stream(stream) == Err::<Seq<EightySixInstruction>, DecodeError>(
            DecodeError::UnknownInstruction,
        ),
{
}

/// A stream that ends after the opcode of a move fails as truncated, and
/// so yields no instruction.
pub proof fn lemma_lone_opcode_is_truncated(stream: Seq<u8>)
    requires
        stream.len() == 1,
        EightySixInstructionType::of_opcode(stream[0]) is Ok,
    ensures
        decode_stream(stream) == Err::<Seq<EightySixInstruction>, DecodeError>(
            DecodeError::TruncatedStream,
        ),
{
}

/// Decoding is a function of the bytes alone: two reports on the same
/// stream are both lists or both failures, the lists hold the same
/// instructions and render to the same text, the failures are the same.
pub proof fn lemma_decoding_is_deterministic(
    stream: Seq<u8>,
    first: Result<Vec<EightySixInstruction>, DecodeError>,
    second: Result<Vec<EightySixInstruction>, DecodeError>,
)
    requires
        reports(first, decode_stream(stream)),
        reports(second, decode_stream(stream)),
    ensures
        first is Ok <==> second is Ok,
        first is Ok ==> first.unwrap()@ == second.unwrap()@,
        first is Ok ==> rendered(first.unwrap()@) == rendered(second.unwrap()@),
        first is Err ==> first.unwrap_err() == second.unwrap_err(),
{
}

} // verus!
