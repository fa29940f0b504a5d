//! Reading the share mint's supply from its account data.

use vstd::bytes::spec_u64_from_le_bytes;
use vstd::prelude::*;

use crate::error::PoolError;

verus! {

/// The size of a packed mint account.
pub const MINT_LEN: usize = 82;

/// Bytes `at .. at + 4` hold a valid optional-key tag (`[0,0,0,0]` or `[1,0,0,0]`).
pub open spec fn option_tag_valid(d: Seq<u8>, at: int) -> bool {
    &&& d[at] == 0 || d[at] == 1
    &&& d[at + 1] == 0
    &&& d[at + 2] == 0
    &&& d[at + 3] == 0
}

/// What reading a mint account gives: its supply, or the reason it cannot be read.
/// The layout is: mint authority (36 bytes), supply (8, little-endian),
/// decimals (1), initialized flag (1), freeze authority (36).
pub open spec fn mint_supply_outcome(d: Seq<u8>) -> Result<u64, PoolError> {
    if d.len() != MINT_LEN || !option_tag_valid(d, 0) || !(d[45] == 0 || d[45] == 1)
        || !option_tag_valid(d, 46) {
        Err(PoolError::InvalidAccountData)
    } else if d[45] == 0 {
        Err(PoolError::UninitializedAccount)
    } else {
        Ok(spec_u64_from_le_bytes(d.subrange(36, 44)))
    }
}

/// Relies on spl_token's `Pack::unpack` for `Mint`: it refuses data whose length
/// is not 82 or whose authority tags or initialized flag are malformed
/// (`InvalidAccountData`), refuses an uninitialized mint (`UninitializedAccount`),
/// and otherwise reads the supply little-endian from bytes 36..44.
#[verifier::external_body]
pub(crate) fn unpack_mint_supply(data: &[u8]) -> (r: Result<u64, PoolError>)
    ensures
        r == mint_supply_outcome(data@),
{
    match <spl_token::state::Mint as solana_program::program_pack::Pack>::unpack(data) {
        Ok(mint) => Ok(mint.supply),
        Err(solana_program::program_error::ProgramError::UninitializedAccount) => Err(
            PoolError::UninitializedAccount,
        ),
        Err(_) => Err(PoolError::InvalidAccountData),
    }
}

} // verus!
