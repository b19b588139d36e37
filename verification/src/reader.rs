use vstd::prelude::*;
use crate::address::{stake_program_id_spec, Address};
use crate::decode::{decode_stake_state, parse_stake_state, DecodeError};
use crate::state::StakeAccount;
use crate::validate::StakeAccountModel;

verus! {

// The account state reader. The network fetch itself happens outside this
// library; its result is handed in as a plain value, and everything after
// the wire — ownership check, payload decoding, classification — is decided
// here, the same way for every possible fetch outcome.

/// What one attempt to fetch an account from the node produced.
#[derive(Debug)]
pub enum FetchOutcome {
    /// The node returned an account: its owning program, balance and data.
    Found { owner: Address, lamports: u64, data: Vec<u8> },
    /// The node answered, and the address holds no account.
    NotFound,
    /// The transport failed; the message is the transport's own.
    NetworkError { message: String },
}

/// Why no usable stake account came out of a fetch.
#[derive(Debug)]
pub enum ReadError {
    /// The address holds no account.
    NotFound,
    /// The transport failed before the node's answer arrived.
    NetworkError { message: String },
    /// The account exists but the stake program does not own it; the actual
    /// owner is carried.
    OwnershipError { owner: Address },
    /// The payload matches no known stake-state layout.
    DecodeError { cause: DecodeError },
}

pub enum FetchOutcomeModel {
    Found { owner: Seq<u8>, lamports: u64, data: Seq<u8> },
    NotFound,
    NetworkError { message: Seq<char> },
}

pub enum ReadErrorModel {
    NotFound,
    NetworkError { message: Seq<char> },
    OwnershipError { owner: Seq<u8> },
    DecodeError { cause: DecodeError },
}

impl View for FetchOutcome {
    type V = FetchOutcomeModel;

    open spec fn view(&self) -> FetchOutcomeModel {
        match self {
            FetchOutcome::Found { owner, lamports, data } => FetchOutcomeModel::Found {
                owner: owner@,
                lamports: *lamports,
                data: data@,
            },
            FetchOutcome::NotFound => FetchOutcomeModel::NotFound,
            FetchOutcome::NetworkError { message } => FetchOutcomeModel::NetworkError {
                message: message@,
            },
        }
    }
}

impl View for ReadError {
    type V = ReadErrorModel;

    open spec fn view(&self) -> ReadErrorModel {
        match self {
            ReadError::NotFound => ReadErrorModel::NotFound,
            ReadError::NetworkError { message } => ReadErrorModel::NetworkError {
                message: message@,
            },
            ReadError::OwnershipError { owner } => ReadErrorModel::OwnershipError { owner: owner@ },
            ReadError::DecodeError { cause } => ReadErrorModel::DecodeError { cause: *cause },
        }
    }
}

/// What reading `address` from the given fetch outcome must produce: the
/// classified account, or the one error the outcome and payload dictate.
pub open spec fn read_result(address: Seq<u8>, outcome: FetchOutcomeModel) -> Result<
    StakeAccountModel,
    ReadErrorModel,
> {
    match outcome {
        FetchOutcomeModel::NotFound => Err(ReadErrorModel::NotFound),
        FetchOutcomeModel::NetworkError { message } => Err(
            ReadErrorModel::NetworkError { message },
        ),
        FetchOutcomeModel::Found { owner, lamports, data } => {
            if owner != stake_program_id_spec() {
                Err(ReadErrorModel::OwnershipError { owner })
            } else {
                match parse_stake_state(data) {
                    Ok(state) => Ok(
                        StakeAccountModel { address, state, lamport_balance: lamports },
                    ),
                    Err(cause) => Err(ReadErrorModel::DecodeError { cause }),
                }
            }
        },
    }
}

/// The view of a whole read outcome.
pub open spec fn read_view(r: Result<StakeAccount, ReadError>) -> Result<
    StakeAccountModel,
    ReadErrorModel,
> {
    match r {
        Ok(account) => Ok(account@),
        Err(e) => Err(e@),
    }
}

/// Classifies one fetch outcome for `address` into a stake account or a
/// read error: exactly `read_result` of the outcome.
pub fn read_stake_account(address: &Address, outcome: FetchOutcome) -> (r: Result<
    StakeAccount,
    ReadError,
>)
    requires
        address.wf(),
    ensures
        read_view(r) == read_result(address@, outcome@),
        r matches Ok(account) ==> account.wf(),
{
    match outcome {
        FetchOutcome::NotFound => Err(ReadError::NotFound),
        FetchOutcome::NetworkError { message } => Err(ReadError::NetworkError { message }),
        FetchOutcome::Found { owner, lamports, data } => {
            let expected = crate::address::stake_program_id();
            if !owner.equals(&expected) {
                return Err(ReadError::OwnershipError { owner });
            }
            match decode_stake_state(data.as_slice()) {
                Ok(state) => Ok(
                    StakeAccount { address: address.dup(), state, lamport_balance: lamports },
                ),
                Err(cause) => Err(ReadError::DecodeError { cause }),
            }
        },
    }
}

} // verus!
