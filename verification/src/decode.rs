use vstd::prelude::*;
use vstd::bytes::{spec_u32_from_le_bytes, spec_u64_from_le_bytes, u32_from_le_bytes, u64_from_le_bytes};
use vstd::slice::{slice_subrange, slice_to_vec};
use crate::address::Address;
use crate::state::StakeState;
use crate::validate::StakeStateModel;

verus! {

// A stake account's data is one record in the stake program's fixed
// little-endian layout: a 4-byte variant tag, then, depending on the tag,
// metadata (rent reserve, the two authorities, a lockup) and a delegation
// (vote address, stake, activation and deactivation epochs, a deprecated
// rate, observed credits) and a flags byte. Trailing bytes beyond the
// variant's record are padding and are ignored, as the on-chain program does.

/// Offset of the authorized staker inside the metadata.
pub const STAKER_OFFSET: usize = 12;

/// Offset of the authorized withdrawer inside the metadata.
pub const WITHDRAWER_OFFSET: usize = 44;

/// Offset of the delegation's vote address.
pub const VOTER_OFFSET: usize = 124;

/// Offset of the delegation's activation epoch.
pub const ACTIVATION_OFFSET: usize = 164;

/// Offset of the delegation's deactivation epoch.
pub const DEACTIVATION_OFFSET: usize = 172;

/// Bytes a record with metadata only (an initialized account) occupies.
pub const INITIALIZED_RECORD_LEN: usize = 124;

/// Bytes a record with metadata and delegation (a delegated account)
/// occupies.
pub const DELEGATED_RECORD_LEN: usize = 197;

/// Why a payload failed to decode.
#[derive(Debug)]
pub enum DecodeError {
    /// The payload ends before the variant's record does.
    TooShort,
    /// The leading variant tag names no known lifecycle state.
    UnknownTag,
}

impl DecodeError {
    /// Equality usable from unverified callers and tests.
    pub fn is_too_short(&self) -> (r: bool)
        ensures
            r == (*self is TooShort),
    {
        match self {
            DecodeError::TooShort => true,
            DecodeError::UnknownTag => false,
        }
    }
}

/// What a stake account's bytes denote: the lifecycle state they encode, or
/// the way in which they match no known layout.
pub open spec fn parse_stake_state(data: Seq<u8>) -> Result<StakeStateModel, DecodeError> {
    if data.len() < 4 {
        Err(DecodeError::TooShort)
    } else {
        let tag = spec_u32_from_le_bytes(data.subrange(0, 4));
        if tag == 0 {
            Ok(StakeStateModel::Uninitialized)
        } else if tag == 1 {
            if data.len() < INITIALIZED_RECORD_LEN {
                Err(DecodeError::TooShort)
            } else {
                Ok(StakeStateModel::Initialized {
                    staker: data.subrange(STAKER_OFFSET as int, STAKER_OFFSET + 32),
                    withdrawer: data.subrange(WITHDRAWER_OFFSET as int, WITHDRAWER_OFFSET + 32),
                })
            }
        } else if tag == 2 {
            if data.len() < DELEGATED_RECORD_LEN {
                Err(DecodeError::TooShort)
            } else {
                Ok(StakeStateModel::Delegated {
                    staker: data.subrange(STAKER_OFFSET as int, STAKER_OFFSET + 32),
                    withdrawer: data.subrange(WITHDRAWER_OFFSET as int, WITHDRAWER_OFFSET + 32),
                    voter: data.subrange(VOTER_OFFSET as int, VOTER_OFFSET + 32),
                    activation_epoch: spec_u64_from_le_bytes(
                        data.subrange(ACTIVATION_OFFSET as int, ACTIVATION_OFFSET + 8),
                    ),
                    deactivation_epoch: spec_u64_from_le_bytes(
                        data.subrange(DEACTIVATION_OFFSET as int, DEACTIVATION_OFFSET + 8),
                    ),
                })
            }
        } else if tag == 3 {
            Ok(StakeStateModel::RewardsPool)
        } else {
            Err(DecodeError::UnknownTag)
        }
    }
}

/// Reads a 32-byte address out of `data` at `offset`.
fn read_address(data: &[u8], offset: usize) -> (r: Address)
    requires
        offset + 32 <= data@.len(),
    ensures
        r@ == data@.subrange(offset as int, offset + 32),
        r.wf(),
{
    let n = data.len();
    let bytes = slice_to_vec(slice_subrange(data, offset, offset + 32));
    Address { bytes }
}

/// Decodes a stake account's raw payload into its lifecycle state.
/// Returns exactly what the payload denotes under the stake program's
/// layout, and an error precisely when it denotes nothing.
pub fn decode_stake_state(data: &[u8]) -> (r: Result<StakeState, DecodeError>)
    ensures
        match r {
            Ok(state) => parse_stake_state(data@) == Ok::<StakeStateModel, DecodeError>(state@)
                && state.wf(),
            Err(e) => parse_stake_state(data@) == Err::<StakeStateModel, DecodeError>(e),
        },
{
    if data.len() < 4 {
        return Err(DecodeError::TooShort);
    }
    let tag = u32_from_le_bytes(slice_subrange(data, 0, 4));
    if tag == 0 {
        Ok(StakeState::Uninitialized)
    } else if tag == 1 {
        if data.len() < INITIALIZED_RECORD_LEN {
            return Err(DecodeError::TooShort);
        }
        Ok(StakeState::Initialized {
            authorized_staker: read_address(data, STAKER_OFFSET),
            authorized_withdrawer: read_address(data, WITHDRAWER_OFFSET),
        })
    } else if tag == 2 {
        if data.len() < DELEGATED_RECORD_LEN {
            return Err(DecodeError::TooShort);
        }
        let activation_epoch = u64_from_le_bytes(
            slice_subrange(data, ACTIVATION_OFFSET, ACTIVATION_OFFSET + 8),
        );
        let deactivation_epoch = u64_from_le_bytes(
            slice_subrange(data, DEACTIVATION_OFFSET, DEACTIVATION_OFFSET + 8),
        );
        Ok(StakeState::Delegated {
            authorized_staker: read_address(data, STAKER_OFFSET),
            authorized_withdrawer: read_address(data, WITHDRAWER_OFFSET),
            voter: read_address(data, VOTER_OFFSET),
            activation_epoch,
            deactivation_epoch,
        })
    } else if tag == 3 {
        Ok(StakeState::RewardsPool)
    } else {
        Err(DecodeError::UnknownTag)
    }
}

} // verus!
