use vstd::prelude::*;
use crate::address::Address;

verus! {

/// The epoch value a delegation carries while it is still active: the
/// deactivation sentinel. A `deactivation_epoch` equal to this value means
/// "not deactivating"; any other value is the epoch deactivation began.
pub const ACTIVE_STAKE_EPOCH_BOUND: u64 = 0xFFFF_FFFF_FFFF_FFFF;

/// Lifecycle state of a stake account, as decoded from its on-chain bytes.
#[derive(Debug)]
pub enum StakeState {
    /// The account exists but holds no stake metadata yet.
    Uninitialized,
    /// Authorities are set but no delegation has been made.
    Initialized { authorized_staker: Address, authorized_withdrawer: Address },
    /// The stake is delegated to a validator.
    Delegated {
        authorized_staker: Address,
        authorized_withdrawer: Address,
        voter: Address,
        activation_epoch: u64,
        deactivation_epoch: u64,
    },
    /// A legacy rewards-pool account; no user operation applies to it.
    RewardsPool,
}

impl StakeState {
    /// Every address the state holds is well formed.
    pub open spec fn wf(&self) -> bool {
        match self {
            StakeState::Uninitialized => true,
            StakeState::Initialized { authorized_staker, authorized_withdrawer } => {
                authorized_staker.wf() && authorized_withdrawer.wf()
            },
            StakeState::Delegated {
                authorized_staker,
                authorized_withdrawer,
                voter,
                activation_epoch,
                deactivation_epoch,
            } => authorized_staker.wf() && authorized_withdrawer.wf() && voter.wf(),
            StakeState::RewardsPool => true,
        }
    }
}

/// A stake account as read from the chain. Ephemeral: it reflects one fetch
/// and must never be assumed valid after a later network round-trip.
#[derive(Debug)]
pub struct StakeAccount {
    pub address: Address,
    pub state: StakeState,
    pub lamport_balance: u64,
}

impl StakeAccount {
    pub open spec fn wf(&self) -> bool {
        self.address.wf() && self.state.wf()
    }
}

} // verus!
