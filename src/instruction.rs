//! The instructions and their wire format: a tag byte, then the variant's field.
use vstd::prelude::*;
use crate::codec::{
    bytes_of_opt_u64, decode_opt_u64, decode_u64, encode_opt_u64, encode_u64, le_of_u64,
    opt_u64_from_bytes, u64_from_bytes,
};
use crate::error::CounterError;

verus! {

/// What a caller asks the counter program to do.
#[derive(Debug, Clone, Copy, PartialEq, Eq, Structural)]
pub enum CounterInstruction {
    /// Create the counter account holding `initial_value`.
    InitializeCounter { initial_value: u64 },
    /// Add `step` to the count, 1 when absent.
    IncrementCounter { step: Option<u64> },
    /// Subtract `step` from the count, 1 when absent.
    DecrementCounter { step: Option<u64> },
}

/// The tag byte of each variant.
pub const TAG_INITIALIZE: u8 = 0;
pub const TAG_INCREMENT: u8 = 1;
pub const TAG_DECREMENT: u8 = 2;

/// The encoding of an instruction.
pub open spec fn instruction_bytes(ix: CounterInstruction) -> Seq<u8> {
    match ix {
        CounterInstruction::InitializeCounter { initial_value } => seq![TAG_INITIALIZE]
            + le_of_u64(initial_value),
        CounterInstruction::IncrementCounter { step } => seq![TAG_INCREMENT] + bytes_of_opt_u64(
            step,
        ),
        CounterInstruction::DecrementCounter { step } => seq![TAG_DECREMENT] + bytes_of_opt_u64(
            step,
        ),
    }
}

/// The instruction that `s` encodes exactly, if any: the tag must be known, and
/// the rest must be the variant's field with nothing missing or left over.
pub open spec fn parse_instruction(s: Seq<u8>) -> Option<CounterInstruction> {
    if s.len() == 0 {
        None
    } else {
        let rest = s.subrange(1, s.len() as int);
        if s[0] == TAG_INITIALIZE {
            match u64_from_bytes(rest) {
                Some(v) => Some(CounterInstruction::InitializeCounter { initial_value: v }),
                None => None,
            }
        } else if s[0] == TAG_INCREMENT {
            match opt_u64_from_bytes(rest) {
                Some(step) => Some(CounterInstruction::IncrementCounter { step }),
                None => None,
            }
        } else if s[0] == TAG_DECREMENT {
            match opt_u64_from_bytes(rest) {
                Some(step) => Some(CounterInstruction::DecrementCounter { step }),
                None => None,
            }
        } else {
            None
        }
    }
}

/// Decoding an encoded instruction gives it back.
pub proof fn lemma_decode_encode(ix: CounterInstruction)
    ensures
        parse_instruction(instruction_bytes(ix)) == Some(ix),
{
    let s = instruction_bytes(ix);
    match ix {
        CounterInstruction::InitializeCounter { initial_value } => {
            crate::codec::lemma_u64_round_trip(initial_value);
            assert(s.subrange(1, s.len() as int) =~= le_of_u64(initial_value));
        },
        CounterInstruction::IncrementCounter { step } => {
            crate::codec::lemma_opt_u64_round_trip(step);
            assert(s.subrange(1, s.len() as int) =~= bytes_of_opt_u64(step));
        },
        CounterInstruction::DecrementCounter { step } => {
            crate::codec::lemma_opt_u64_round_trip(step);
            assert(s.subrange(1, s.len() as int) =~= bytes_of_opt_u64(step));
        },
    }
}

impl CounterInstruction {
    /// Decodes an instruction; bytes that encode none are rejected.
    pub fn try_from_slice(data: &[u8]) -> (r: Result<CounterInstruction, CounterError>)
        ensures
            match parse_instruction(data@) {
                Some(ix) => r == Ok::<CounterInstruction, CounterError>(ix),
                None => r == Err::<CounterInstruction, CounterError>(
                    CounterError::InvalidInstructionData,
                ),
            },
    {
        if data.len() == 0 {
            return Err(CounterError::InvalidInstructionData);
        }
        let (head, rest) = data.split_at(1);
        assert(rest@ =~= data@.subrange(1, data@.len() as int));
        let tag = head[0];
        if tag == TAG_INITIALIZE {
            match decode_u64(rest) {
                Some(v) => Ok(CounterInstruction::InitializeCounter { initial_value: v }),
                None => Err(CounterError::InvalidInstructionData),
            }
        } else if tag == TAG_INCREMENT {
            match decode_opt_u64(rest) {
                Some(step) => Ok(CounterInstruction::IncrementCounter { step }),
                None => Err(CounterError::InvalidInstructionData),
            }
        } else if tag == TAG_DECREMENT {
            match decode_opt_u64(rest) {
                Some(step) => Ok(CounterInstruction::DecrementCounter { step }),
                None => Err(CounterError::InvalidInstructionData),
            }
        } else {
            Err(CounterError::InvalidInstructionData)
        }
    }

    /// Encodes this instruction.
    pub fn to_bytes(&self) -> (r: Vec<u8>)
        ensures
            r@ == instruction_bytes(*self),
            parse_instruction(r@) == Some(*self),
    {
        proof {
            lemma_decode_encode(*self);
        }
        let mut out: Vec<u8> = Vec::new();
        let mut field = match *self {
            CounterInstruction::InitializeCounter { initial_value } => {
                out.push(TAG_INITIALIZE);
                encode_u64(initial_value)
            },
            CounterInstruction::IncrementCounter { step } => {
                out.push(TAG_INCREMENT);
                encode_opt_u64(step)
            },
            CounterInstruction::DecrementCounter { step } => {
                out.push(TAG_DECREMENT);
                encode_opt_u64(step)
            },
        };
        out.append(&mut field);
        out
    }
}

} // verus!
