//! The ways in which decoding an instruction stream can fail.

use vstd::prelude::*;

verus! {

/// Why a byte stream could not be decoded. None of these is recoverable: the
/// decoder does not know how long an instruction it cannot read would have
/// been, so it gives up on the whole stream.
#[derive(Clone, Copy, Debug, PartialEq, Eq, Structural)]
pub enum DecodeError {
    /// The stream ended where a byte of an instruction was still expected.
    TruncatedStream,
    /// The fixed bits of a leading byte match no known instruction.
    UnknownInstruction,
    /// A register field names no known register group.
    UnknownRegister,
}

impl DecodeError {
    /// The text of the message, as a sequence of characters.
    pub open spec fn message_text(self) -> Seq<char> {
        match self {
            DecodeError::TruncatedStream => "Unexpected end of instruction stream"@,
            DecodeError::UnknownInstruction => "Unknown instruction"@,
            DecodeError::UnknownRegister => "Unknown register"@,
        }
    }

    /// A short description of the failure, fit for a log line.
    pub fn message(&self) -> (text: &'static str)
        ensures
            text@ == self.message_text(),
    {
        match self {
            DecodeError::TruncatedStream => "Unexpected end of instruction stream",
            DecodeError::UnknownInstruction => "Unknown instruction",
            DecodeError::UnknownRegister => "Unknown register",
        }
    }
}

} // verus!
