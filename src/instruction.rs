//! Decoding of the two-party swap (escrow) instructions.

use vstd::bytes::{spec_u64_from_le_bytes, u64_from_le_bytes};
use vstd::prelude::*;
use vstd::slice::slice_subrange;

use crate::error::ETFError;

verus! {

/// An escrow instruction. The first byte of its encoding is a tag; the
/// amount, where there is one, follows as a little-endian 64-bit integer.
#[derive(Clone, Copy, Debug, PartialEq, Eq, Structural)]
pub enum EscrowInstruction {
    /// Starts a trade; `amount` is what the initializer expects to be paid.
    InitEscrow { amount: u64 },
    /// Accepts a trade; `amount` is what the taker expects to be paid.
    Exchange { amount: u64 },
    /// Cancels a trade.
    Cancel,
}

/// The amount in the first eight bytes of `input`, little-endian.
pub open spec fn amount_outcome(input: Seq<u8>) -> Result<u64, ETFError> {
    if input.len() < 8 {
        Err(ETFError::InvalidInstruction)
    } else {
        Ok(spec_u64_from_le_bytes(input.subrange(0, 8)))
    }
}

/// The instruction that `input` encodes: tag 0 is `InitEscrow`, tag 1 is
/// `Exchange`; anything else, or a missing amount, is refused.
pub open spec fn instruction_outcome(input: Seq<u8>) -> Result<EscrowInstruction, ETFError> {
    if input.len() == 0 {
        Err(ETFError::InvalidInstruction)
    } else if input[0] == 0 || input[0] == 1 {
        match amount_outcome(input.drop_first()) {
            Err(e) => Err(e),
            Ok(amount) => if input[0] == 0 {
                Ok(EscrowInstruction::InitEscrow { amount })
            } else {
                Ok(EscrowInstruction::Exchange { amount })
            },
        }
    } else {
        Err(ETFError::InvalidInstruction)
    }
}

impl EscrowInstruction {
    /// Unpacks a byte buffer into an instruction.
    pub fn unpack(input: &[u8]) -> (r: Result<EscrowInstruction, ETFError>)
        ensures
            r == instruction_outcome(input@),
    {
        if input.len() == 0 {
            return Err(ETFError::InvalidInstruction);
        }
        let tag = input[0];
        let rest = slice_subrange(input, 1, input.len());
        assert(rest@ =~= input@.drop_first());
        if tag == 0 {
            match unpack_amount(rest) {
                Ok(amount) => Ok(EscrowInstruction::InitEscrow { amount }),
                Err(e) => Err(e),
            }
        } else if tag == 1 {
            match unpack_amount(rest) {
                Ok(amount) => Ok(EscrowInstruction::Exchange { amount }),
                Err(e) => Err(e),
            }
        } else {
            Err(ETFError::InvalidInstruction)
        }
    }
}

/// Reads the amount in the first eight bytes of `input`, little-endian;
/// bytes after those are ignored.
pub fn unpack_amount(input: &[u8]) -> (r: Result<u64, ETFError>)
    ensures
        r == amount_outcome(input@),
{
    if input.len() < 8 {
        return Err(ETFError::InvalidInstruction);
    }
    Ok(u64_from_le_bytes(slice_subrange(input, 0, 8)))
}

} // verus!
