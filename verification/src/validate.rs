use vstd::prelude::*;
use crate::address::Address;
use crate::state::{StakeAccount, StakeState, ACTIVE_STAKE_EPOCH_BOUND};

verus! {

/// What a requested operation asks for, beyond the target account.
#[derive(Debug)]
pub enum OperationKind {
    /// Fund and initialize a fresh stake account with `amount` atomic units.
    Create { amount: u64 },
    /// Delegate the whole account to a validator's vote account.
    Delegate { validator_vote_account: Address },
    /// Begin deactivation (cooldown) of a delegated account.
    Deactivate,
    /// Move `amount` atomic units to `recipient`.
    Withdraw { recipient: Address, amount: u64 },
    /// Merge `source_account` into the target account.
    Merge { source_account: Address },
    /// Move `amount` atomic units of stake into `new_account`.
    Split { new_account: Address, amount: u64 },
}

/// One user action: an operation aimed at a stake account. Built once from
/// validated input, consumed once by the validator.
#[derive(Debug)]
pub struct OperationRequest {
    pub target_account: Address,
    pub kind: OperationKind,
}

/// Why the validator refused an operation. Every variant carries the values
/// that explain the refusal, so no second fetch is needed to report it.
#[derive(Debug)]
pub enum DenyReason {
    /// The account's lifecycle state does not admit this operation.
    WrongState,
    /// The account holds no stake metadata at all.
    Uninitialized,
    /// The account is a legacy rewards pool.
    RewardsPool,
    /// Deactivation already began at the carried epoch.
    AlreadyDeactivating { deactivation_epoch: u64 },
    /// The caller is not the authority the operation requires.
    NotAuthorized { authorized: Address },
    /// The delegation is still active; it must be deactivated first.
    StillActive,
    /// Deactivation began but the cooldown has not elapsed.
    CoolingDown { current_epoch: u64, deactivation_epoch: u64, epochs_remaining: u64 },
    /// The account holds fewer atomic units than requested.
    InsufficientBalance { available: u64, requested: u64 },
}

/// The minimal instruction parameters the builder needs for an approved
/// operation.
#[derive(Debug)]
pub enum ApprovedAction {
    DeactivateStake { stake_account: Address, staker: Address },
    WithdrawStake { stake_account: Address, withdrawer: Address, recipient: Address, amount: u64 },
    DelegateStake { stake_account: Address, staker: Address, vote_account: Address },
    MergeStake { destination: Address, source: Address, staker: Address },
    SplitStake { stake_account: Address, new_account: Address, staker: Address, amount: u64 },
    CreateStake { funder: Address, new_account: Address, authority: Address, amount: u64 },
}

// Ghost models: the same shapes over raw byte sequences, so that contracts
// and the decision table live entirely in specification land.

pub enum StakeStateModel {
    Uninitialized,
    Initialized { staker: Seq<u8>, withdrawer: Seq<u8> },
    Delegated {
        staker: Seq<u8>,
        withdrawer: Seq<u8>,
        voter: Seq<u8>,
        activation_epoch: u64,
        deactivation_epoch: u64,
    },
    RewardsPool,
}

pub struct StakeAccountModel {
    pub address: Seq<u8>,
    pub state: StakeStateModel,
    pub lamport_balance: u64,
}

pub enum OperationKindModel {
    Create { amount: u64 },
    Delegate { validator_vote_account: Seq<u8> },
    Deactivate,
    Withdraw { recipient: Seq<u8>, amount: u64 },
    Merge { source_account: Seq<u8> },
    Split { new_account: Seq<u8>, amount: u64 },
}

pub struct OperationRequestModel {
    pub target_account: Seq<u8>,
    pub kind: OperationKindModel,
}

pub enum DenyReasonModel {
    WrongState,
    Uninitialized,
    RewardsPool,
    AlreadyDeactivating { deactivation_epoch: u64 },
    NotAuthorized { authorized: Seq<u8> },
    StillActive,
    CoolingDown { current_epoch: u64, deactivation_epoch: u64, epochs_remaining: u64 },
    InsufficientBalance { available: u64, requested: u64 },
}

pub enum ApprovedActionModel {
    DeactivateStake { stake_account: Seq<u8>, staker: Seq<u8> },
    WithdrawStake {
        stake_account: Seq<u8>,
        withdrawer: Seq<u8>,
        recipient: Seq<u8>,
        amount: u64,
    },
    DelegateStake { stake_account: Seq<u8>, staker: Seq<u8>, vote_account: Seq<u8> },
    MergeStake { destination: Seq<u8>, source: Seq<u8>, staker: Seq<u8> },
    SplitStake { stake_account: Seq<u8>, new_account: Seq<u8>, staker: Seq<u8>, amount: u64 },
    CreateStake { funder: Seq<u8>, new_account: Seq<u8>, authority: Seq<u8>, amount: u64 },
}

impl View for StakeState {
    type V = StakeStateModel;

    open spec fn view(&self) -> StakeStateModel {
        match self {
            StakeState::Uninitialized => StakeStateModel::Uninitialized,
            StakeState::Initialized { authorized_staker, authorized_withdrawer } => {
                StakeStateModel::Initialized {
                    staker: authorized_staker@,
                    withdrawer: authorized_withdrawer@,
                }
            },
            StakeState::Delegated {
                authorized_staker,
                authorized_withdrawer,
                voter,
                activation_epoch,
                deactivation_epoch,
            } => StakeStateModel::Delegated {
                staker: authorized_staker@,
                withdrawer: authorized_withdrawer@,
                voter: voter@,
                activation_epoch: *activation_epoch,
                deactivation_epoch: *deactivation_epoch,
            },
            StakeState::RewardsPool => StakeStateModel::RewardsPool,
        }
    }
}

impl View for StakeAccount {
    type V = StakeAccountModel;

    open spec fn view(&self) -> StakeAccountModel {
        StakeAccountModel {
            address: self.address@,
            state: self.state@,
            lamport_balance: self.lamport_balance,
        }
    }
}

impl View for OperationKind {
    type V = OperationKindModel;

    open spec fn view(&self) -> OperationKindModel {
        match self {
            OperationKind::Create { amount } => OperationKindModel::Create { amount: *amount },
            OperationKind::Delegate { validator_vote_account } => OperationKindModel::Delegate {
                validator_vote_account: validator_vote_account@,
            },
            OperationKind::Deactivate => OperationKindModel::Deactivate,
            OperationKind::Withdraw { recipient, amount } => OperationKindModel::Withdraw {
                recipient: recipient@,
                amount: *amount,
            },
            OperationKind::Merge { source_account } => OperationKindModel::Merge {
                source_account: source_account@,
            },
            OperationKind::Split { new_account, amount } => OperationKindModel::Split {
                new_account: new_account@,
                amount: *amount,
            },
        }
    }
}

impl View for OperationRequest {
    type V = OperationRequestModel;

    open spec fn view(&self) -> OperationRequestModel {
        OperationRequestModel { target_account: self.target_account@, kind: self.kind@ }
    }
}

impl View for DenyReason {
    type V = DenyReasonModel;

    open spec fn view(&self) -> DenyReasonModel {
        match self {
            DenyReason::WrongState => DenyReasonModel::WrongState,
            DenyReason::Uninitialized => DenyReasonModel::Uninitialized,
            DenyReason::RewardsPool => DenyReasonModel::RewardsPool,
            DenyReason::AlreadyDeactivating { deactivation_epoch } => {
                DenyReasonModel::AlreadyDeactivating { deactivation_epoch: *deactivation_epoch }
            },
            DenyReason::NotAuthorized { authorized } => DenyReasonModel::NotAuthorized {
                authorized: authorized@,
            },
            DenyReason::StillActive => DenyReasonModel::StillActive,
            DenyReason::CoolingDown { current_epoch, deactivation_epoch, epochs_remaining } => {
                DenyReasonModel::CoolingDown {
                    current_epoch: *current_epoch,
                    deactivation_epoch: *deactivation_epoch,
                    epochs_remaining: *epochs_remaining,
                }
            },
            DenyReason::InsufficientBalance { available, requested } => {
                DenyReasonModel::InsufficientBalance {
                    available: *available,
                    requested: *requested,
                }
            },
        }
    }
}

impl View for ApprovedAction {
    type V = ApprovedActionModel;

    open spec fn view(&self) -> ApprovedActionModel {
        match self {
            ApprovedAction::DeactivateStake { stake_account, staker } => {
                ApprovedActionModel::DeactivateStake {
                    stake_account: stake_account@,
                    staker: staker@,
                }
            },
            ApprovedAction::WithdrawStake { stake_account, withdrawer, recipient, amount } => {
                ApprovedActionModel::WithdrawStake {
                    stake_account: stake_account@,
                    withdrawer: withdrawer@,
                    recipient: recipient@,
                    amount: *amount,
                }
            },
            ApprovedAction::DelegateStake { stake_account, staker, vote_account } => {
                ApprovedActionModel::DelegateStake {
                    stake_account: stake_account@,
                    staker: staker@,
                    vote_account: vote_account@,
                }
            },
            ApprovedAction::MergeStake { destination, source, staker } => {
                ApprovedActionModel::MergeStake {
                    destination: destination@,
                    source: source@,
                    staker: staker@,
                }
            },
            ApprovedAction::SplitStake { stake_account, new_account, staker, amount } => {
                ApprovedActionModel::SplitStake {
                    stake_account: stake_account@,
                    new_account: new_account@,
                    staker: staker@,
                    amount: *amount,
                }
            },
            ApprovedAction::CreateStake { funder, new_account, authority, amount } => {
                ApprovedActionModel::CreateStake {
                    funder: funder@,
                    new_account: new_account@,
                    authority: authority@,
                    amount: *amount,
                }
            },
        }
    }
}

/// The view of a whole validation outcome.
pub open spec fn decision_view(r: Result<ApprovedAction, DenyReason>) -> Result<
    ApprovedActionModel,
    DenyReasonModel,
> {
    match r {
        Ok(a) => Ok(a@),
        Err(d) => Err(d@),
    }
}

/// The deactivation rule table.
pub open spec fn decide_deactivate(
    account: StakeAccountModel,
    caller: Seq<u8>,
) -> Result<ApprovedActionModel, DenyReasonModel> {
    match account.state {
        StakeStateModel::Delegated { staker, deactivation_epoch, .. } => {
            if deactivation_epoch != ACTIVE_STAKE_EPOCH_BOUND {
                Err(DenyReasonModel::AlreadyDeactivating { deactivation_epoch })
            } else if caller != staker {
                Err(DenyReasonModel::NotAuthorized { authorized: staker })
            } else {
                Ok(ApprovedActionModel::DeactivateStake {
                    stake_account: account.address,
                    staker: caller,
                })
            }
        },
        _ => Err(DenyReasonModel::WrongState),
    }
}

/// The balance rule shared by withdrawals: the requested amount must not
/// exceed what the account holds.
pub open spec fn decide_withdraw_balance(
    account: StakeAccountModel,
    caller: Seq<u8>,
    recipient: Seq<u8>,
    amount: u64,
) -> Result<ApprovedActionModel, DenyReasonModel> {
    if amount > account.lamport_balance {
        Err(DenyReasonModel::InsufficientBalance {
            available: account.lamport_balance,
            requested: amount,
        })
    } else {
        Ok(ApprovedActionModel::WithdrawStake {
            stake_account: account.address,
            withdrawer: caller,
            recipient,
            amount,
        })
    }
}

/// The withdrawal rule table.
pub open spec fn decide_withdraw(
    account: StakeAccountModel,
    caller: Seq<u8>,
    recipient: Seq<u8>,
    amount: u64,
    current_epoch: u64,
) -> Result<ApprovedActionModel, DenyReasonModel> {
    match account.state {
        StakeStateModel::Delegated { withdrawer, deactivation_epoch, .. } => {
            if caller != withdrawer {
                Err(DenyReasonModel::NotAuthorized { authorized: withdrawer })
            } else if deactivation_epoch == ACTIVE_STAKE_EPOCH_BOUND {
                Err(DenyReasonModel::StillActive)
            } else if current_epoch <= deactivation_epoch {
                Err(DenyReasonModel::CoolingDown {
                    current_epoch,
                    deactivation_epoch,
                    epochs_remaining: (deactivation_epoch - current_epoch) as u64,
                })
            } else {
                decide_withdraw_balance(account, caller, recipient, amount)
            }
        },
        StakeStateModel::Initialized { withdrawer, .. } => {
            if caller != withdrawer {
                Err(DenyReasonModel::NotAuthorized { authorized: withdrawer })
            } else {
                decide_withdraw_balance(account, caller, recipient, amount)
            }
        },
        StakeStateModel::Uninitialized => Err(DenyReasonModel::Uninitialized),
        StakeStateModel::RewardsPool => Err(DenyReasonModel::RewardsPool),
    }
}

/// The delegation rule table: delegate an initialized account, or one whose
/// earlier delegation has fully cooled down.
pub open spec fn decide_delegate(
    account: StakeAccountModel,
    caller: Seq<u8>,
    vote_account: Seq<u8>,
    current_epoch: u64,
) -> Result<ApprovedActionModel, DenyReasonModel> {
    match account.state {
        StakeStateModel::Initialized { staker, .. } => {
            if caller != staker {
                Err(DenyReasonModel::NotAuthorized { authorized: staker })
            } else {
                Ok(ApprovedActionModel::DelegateStake {
                    stake_account: account.address,
                    staker: caller,
                    vote_account,
                })
            }
        },
        StakeStateModel::Delegated { staker, deactivation_epoch, .. } => {
            if caller != staker {
                Err(DenyReasonModel::NotAuthorized { authorized: staker })
            } else if deactivation_epoch == ACTIVE_STAKE_EPOCH_BOUND {
                Err(DenyReasonModel::StillActive)
            } else if current_epoch <= deactivation_epoch {
                Err(DenyReasonModel::CoolingDown {
                    current_epoch,
                    deactivation_epoch,
                    epochs_remaining: (deactivation_epoch - current_epoch) as u64,
                })
            } else {
                Ok(ApprovedActionModel::DelegateStake {
                    stake_account: account.address,
                    staker: caller,
                    vote_account,
                })
            }
        },
        StakeStateModel::Uninitialized => Err(DenyReasonModel::Uninitialized),
        StakeStateModel::RewardsPool => Err(DenyReasonModel::RewardsPool),
    }
}

/// The merge rule table: only settled accounts merge, under the staker.
pub open spec fn decide_merge(
    account: StakeAccountModel,
    caller: Seq<u8>,
    source_account: Seq<u8>,
) -> Result<ApprovedActionModel, DenyReasonModel> {
    match account.state {
        StakeStateModel::Initialized { staker, .. } => {
            if caller != staker {
                Err(DenyReasonModel::NotAuthorized { authorized: staker })
            } else {
                Ok(ApprovedActionModel::MergeStake {
                    destination: account.address,
                    source: source_account,
                    staker: caller,
                })
            }
        },
        StakeStateModel::Delegated { staker, deactivation_epoch, .. } => {
            if caller != staker {
                Err(DenyReasonModel::NotAuthorized { authorized: staker })
            } else if deactivation_epoch != ACTIVE_STAKE_EPOCH_BOUND {
                Err(DenyReasonModel::AlreadyDeactivating { deactivation_epoch })
            } else {
                Ok(ApprovedActionModel::MergeStake {
                    destination: account.address,
                    source: source_account,
                    staker: caller,
                })
            }
        },
        StakeStateModel::Uninitialized => Err(DenyReasonModel::Uninitialized),
        StakeStateModel::RewardsPool => Err(DenyReasonModel::RewardsPool),
    }
}

/// The split rule table: the staker may carve stake off into a new account,
/// up to the balance the account holds.
pub open spec fn decide_split(
    account: StakeAccountModel,
    caller: Seq<u8>,
    new_account: Seq<u8>,
    amount: u64,
) -> Result<ApprovedActionModel, DenyReasonModel> {
    match account.state {
        StakeStateModel::Initialized { staker, .. } | StakeStateModel::Delegated {
            staker,
            ..
        } => {
            if caller != staker {
                Err(DenyReasonModel::NotAuthorized { authorized: staker })
            } else if amount > account.lamport_balance {
                Err(DenyReasonModel::InsufficientBalance {
                    available: account.lamport_balance,
                    requested: amount,
                })
            } else {
                Ok(ApprovedActionModel::SplitStake {
                    stake_account: account.address,
                    new_account,
                    staker: caller,
                    amount,
                })
            }
        },
        StakeStateModel::Uninitialized => Err(DenyReasonModel::Uninitialized),
        StakeStateModel::RewardsPool => Err(DenyReasonModel::RewardsPool),
    }
}

/// The creation rule table: only an address that holds no stake metadata yet
/// can become a stake account; the caller funds it and receives both
/// authorities.
pub open spec fn decide_create(
    account: StakeAccountModel,
    caller: Seq<u8>,
    amount: u64,
) -> Result<ApprovedActionModel, DenyReasonModel> {
    match account.state {
        StakeStateModel::Uninitialized => Ok(ApprovedActionModel::CreateStake {
            funder: caller,
            new_account: account.address,
            authority: caller,
            amount,
        }),
        _ => Err(DenyReasonModel::WrongState),
    }
}

/// The whole decision table: one rule set per operation kind. Pure: it reads
/// only its arguments and talks to nothing.
pub open spec fn decide(
    request: OperationRequestModel,
    account: StakeAccountModel,
    caller: Seq<u8>,
    current_epoch: u64,
) -> Result<ApprovedActionModel, DenyReasonModel> {
    match request.kind {
        OperationKindModel::Deactivate => decide_deactivate(account, caller),
        OperationKindModel::Withdraw { recipient, amount } => decide_withdraw(
            account,
            caller,
            recipient,
            amount,
            current_epoch,
        ),
        OperationKindModel::Delegate { validator_vote_account } => decide_delegate(
            account,
            caller,
            validator_vote_account,
            current_epoch,
        ),
        OperationKindModel::Merge { source_account } => decide_merge(
            account,
            caller,
            source_account,
        ),
        OperationKindModel::Split { new_account, amount } => decide_split(
            account,
            caller,
            new_account,
            amount,
        ),
        OperationKindModel::Create { amount } => decide_create(account, caller, amount),
    }
}

/// Law: deactivating an account whose deactivation epoch already differs
/// from the active sentinel is denied as `AlreadyDeactivating`, carrying that
/// epoch — regardless of the caller's identity.
pub proof fn lemma_deactivate_already_deactivating(
    target: Seq<u8>,
    balance: u64,
    staker: Seq<u8>,
    withdrawer: Seq<u8>,
    voter: Seq<u8>,
    activation_epoch: u64,
    deactivation_epoch: u64,
    caller: Seq<u8>,
    current_epoch: u64,
)
    requires
        deactivation_epoch != ACTIVE_STAKE_EPOCH_BOUND,
    ensures
        ({
            let account = StakeAccountModel {
                address: target,
                state: StakeStateModel::Delegated {
                    staker,
                    withdrawer,
                    voter,
                    activation_epoch,
                    deactivation_epoch,
                },
                lamport_balance: balance,
            };
            let request = OperationRequestModel {
                target_account: target,
                kind: OperationKindModel::Deactivate,
            };
            decide(request, account, caller, current_epoch) == Err::<
                ApprovedActionModel,
                DenyReasonModel,
            >(DenyReasonModel::AlreadyDeactivating { deactivation_epoch })
        }),
{
}

/// Law: deactivating an otherwise eligible account (delegated, still at the
/// active sentinel) by anyone but the authorized staker is denied as
/// `NotAuthorized`, naming that staker.
pub proof fn lemma_deactivate_not_authorized(
    target: Seq<u8>,
    balance: u64,
    staker: Seq<u8>,
    withdrawer: Seq<u8>,
    voter: Seq<u8>,
    activation_epoch: u64,
    caller: Seq<u8>,
    current_epoch: u64,
)
    requires
        caller != staker,
    ensures
        ({
            let account = StakeAccountModel {
                address: target,
                state: StakeStateModel::Delegated {
                    staker,
                    withdrawer,
                    voter,
                    activation_epoch,
                    deactivation_epoch: ACTIVE_STAKE_EPOCH_BOUND,
                },
                lamport_balance: balance,
            };
            let request = OperationRequestModel {
                target_account: target,
                kind: OperationKindModel::Deactivate,
            };
            decide(request, account, caller, current_epoch) == Err::<
                ApprovedActionModel,
                DenyReasonModel,
            >(DenyReasonModel::NotAuthorized { authorized: staker })
        }),
{
}

/// Law: withdrawing from a delegated account that began deactivating, while
/// `current_epoch <= deactivation_epoch`, is denied as `CoolingDown`, and the
/// reported epochs remaining are exactly `deactivation_epoch - current_epoch`.
pub proof fn lemma_withdraw_cooling_down(
    target: Seq<u8>,
    balance: u64,
    staker: Seq<u8>,
    withdrawer: Seq<u8>,
    voter: Seq<u8>,
    activation_epoch: u64,
    deactivation_epoch: u64,
    recipient: Seq<u8>,
    amount: u64,
    current_epoch: u64,
)
    requires
        deactivation_epoch != ACTIVE_STAKE_EPOCH_BOUND,
        current_epoch <= deactivation_epoch,
    ensures
        ({
            let account = StakeAccountModel {
                address: target,
                state: StakeStateModel::Delegated {
                    staker,
                    withdrawer,
                    voter,
                    activation_epoch,
                    deactivation_epoch,
                },
                lamport_balance: balance,
            };
            let request = OperationRequestModel {
                target_account: target,
                kind: OperationKindModel::Withdraw { recipient, amount },
            };
            decide(request, account, withdrawer, current_epoch) == Err::<
                ApprovedActionModel,
                DenyReasonModel,
            >(DenyReasonModel::CoolingDown {
                current_epoch,
                deactivation_epoch,
                epochs_remaining: (deactivation_epoch - current_epoch) as u64,
            })
        }),
{
}

/// Law: withdrawing more atomic units than the account holds is denied as
/// `InsufficientBalance`, reporting both the available and the requested
/// amount, even though the caller is the authorized withdrawer and every
/// epoch condition passes. Stated for both withdrawable states.
pub proof fn lemma_withdraw_insufficient_balance(
    target: Seq<u8>,
    balance: u64,
    staker: Seq<u8>,
    withdrawer: Seq<u8>,
    voter: Seq<u8>,
    activation_epoch: u64,
    deactivation_epoch: u64,
    recipient: Seq<u8>,
    amount: u64,
    current_epoch: u64,
)
    requires
        amount > balance,
        deactivation_epoch != ACTIVE_STAKE_EPOCH_BOUND,
        current_epoch > deactivation_epoch,
    ensures
        ({
            let account = StakeAccountModel {
                address: target,
                state: StakeStateModel::Delegated {
                    staker,
                    withdrawer,
                    voter,
                    activation_epoch,
                    deactivation_epoch,
                },
                lamport_balance: balance,
            };
            let request = OperationRequestModel {
                target_account: target,
                kind: OperationKindModel::Withdraw { recipient, amount },
            };
            decide(request, account, withdrawer, current_epoch) == Err::<
                ApprovedActionModel,
                DenyReasonModel,
            >(DenyReasonModel::InsufficientBalance { available: balance, requested: amount })
        }),
        ({
            let account = StakeAccountModel {
                address: target,
                state: StakeStateModel::Initialized { staker, withdrawer },
                lamport_balance: balance,
            };
            let request = OperationRequestModel {
                target_account: target,
                kind: OperationKindModel::Withdraw { recipient, amount },
            };
            decide(request, account, withdrawer, current_epoch) == Err::<
                ApprovedActionModel,
                DenyReasonModel,
            >(DenyReasonModel::InsufficientBalance { available: balance, requested: amount })
        }),
{
}

impl OperationRequest {
    /// Addresses carried by the request are well formed.
    pub open spec fn wf(&self) -> bool {
        &&& self.target_account.wf()
        &&& match &self.kind {
            OperationKind::Create { .. } => true,
            OperationKind::Delegate { validator_vote_account } => validator_vote_account.wf(),
            OperationKind::Deactivate => true,
            OperationKind::Withdraw { recipient, .. } => recipient.wf(),
            OperationKind::Merge { source_account } => source_account.wf(),
            OperationKind::Split { new_account, .. } => new_account.wf(),
        }
    }
}

/// Decides whether `request` is legal against the freshly fetched `account`,
/// for the identified `caller` at `current_epoch`. Pure pre-check: the chain
/// itself remains the final authority once the transaction is submitted.
pub fn validate(
    request: &OperationRequest,
    account: &StakeAccount,
    caller: &Address,
    current_epoch: u64,
) -> (r: Result<ApprovedAction, DenyReason>)
    ensures
        decision_view(r) == decide(request@, account@, caller@, current_epoch),
{
    match &request.kind {
        OperationKind::Deactivate => {
            match &account.state {
                StakeState::Delegated { authorized_staker, deactivation_epoch, .. } => {
                    if *deactivation_epoch != ACTIVE_STAKE_EPOCH_BOUND {
                        Err(DenyReason::AlreadyDeactivating {
                            deactivation_epoch: *deactivation_epoch,
                        })
                    } else if !caller.equals(authorized_staker) {
                        Err(DenyReason::NotAuthorized { authorized: authorized_staker.dup() })
                    } else {
                        Ok(ApprovedAction::DeactivateStake {
                            stake_account: account.address.dup(),
                            staker: caller.dup(),
                        })
                    }
                },
                _ => Err(DenyReason::WrongState),
            }
        },
        OperationKind::Withdraw { recipient, amount } => {
            match &account.state {
                StakeState::Delegated { authorized_withdrawer, deactivation_epoch, .. } => {
                    if !caller.equals(authorized_withdrawer) {
                        Err(DenyReason::NotAuthorized { authorized: authorized_withdrawer.dup() })
                    } else if *deactivation_epoch == ACTIVE_STAKE_EPOCH_BOUND {
                        Err(DenyReason::StillActive)
                    } else if current_epoch <= *deactivation_epoch {
                        Err(DenyReason::CoolingDown {
                            current_epoch,
                            deactivation_epoch: *deactivation_epoch,
                            epochs_remaining: *deactivation_epoch - current_epoch,
                        })
                    } else if *amount > account.lamport_balance {
                        Err(DenyReason::InsufficientBalance {
                            available: account.lamport_balance,
                            requested: *amount,
                        })
                    } else {
                        Ok(ApprovedAction::WithdrawStake {
                            stake_account: account.address.dup(),
                            withdrawer: caller.dup(),
                            recipient: recipient.dup(),
                            amount: *amount,
                        })
                    }
                },
                StakeState::Initialized { authorized_withdrawer, .. } => {
                    if !caller.equals(authorized_withdrawer) {
                        Err(DenyReason::NotAuthorized { authorized: authorized_withdrawer.dup() })
                    } else if *amount > account.lamport_balance {
                        Err(DenyReason::InsufficientBalance {
                            available: account.lamport_balance,
                            requested: *amount,
                        })
                    } else {
                        Ok(ApprovedAction::WithdrawStake {
                            stake_account: account.address.dup(),
                            withdrawer: caller.dup(),
                            recipient: recipient.dup(),
                            amount: *amount,
                        })
                    }
                },
                StakeState::Uninitialized => Err(DenyReason::Uninitialized),
                StakeState::RewardsPool => Err(DenyReason::RewardsPool),
            }
        },
        OperationKind::Delegate { validator_vote_account } => {
            match &account.state {
                StakeState::Initialized { authorized_staker, .. } => {
                    if !caller.equals(authorized_staker) {
                        Err(DenyReason::NotAuthorized { authorized: authorized_staker.dup() })
                    } else {
                        Ok(ApprovedAction::DelegateStake {
                            stake_account: account.address.dup(),
                            staker: caller.dup(),
                            vote_account: validator_vote_account.dup(),
                        })
                    }
                },
                StakeState::Delegated { authorized_staker, deactivation_epoch, .. } => {
                    if !caller.equals(authorized_staker) {
                        Err(DenyReason::NotAuthorized { authorized: authorized_staker.dup() })
                    } else if *deactivation_epoch == ACTIVE_STAKE_EPOCH_BOUND {
                        Err(DenyReason::StillActive)
                    } else if current_epoch <= *deactivation_epoch {
                        Err(DenyReason::CoolingDown {
                            current_epoch,
                            deactivation_epoch: *deactivation_epoch,
                            epochs_remaining: *deactivation_epoch - current_epoch,
                        })
                    } else {
                        Ok(ApprovedAction::DelegateStake {
                            stake_account: account.address.dup(),
                            staker: caller.dup(),
                            vote_account: validator_vote_account.dup(),
                        })
                    }
                },
                StakeState::Uninitialized => Err(DenyReason::Uninitialized),
                StakeState::RewardsPool => Err(DenyReason::RewardsPool),
            }
        },
        OperationKind::Merge { source_account } => {
            match &account.state {
                StakeState::Initialized { authorized_staker, .. } => {
                    if !caller.equals(authorized_staker) {
                        Err(DenyReason::NotAuthorized { authorized: authorized_staker.dup() })
                    } else {
                        Ok(ApprovedAction::MergeStake {
                            destination: account.address.dup(),
                            source: source_account.dup(),
                            staker: caller.dup(),
                        })
                    }
                },
                StakeState::Delegated { authorized_staker, deactivation_epoch, .. } => {
                    if !caller.equals(authorized_staker) {
                        Err(DenyReason::NotAuthorized { authorized: authorized_staker.dup() })
                    } else if *deactivation_epoch != ACTIVE_STAKE_EPOCH_BOUND {
                        Err(DenyReason::AlreadyDeactivating {
                            deactivation_epoch: *deactivation_epoch,
                        })
                    } else {
                        Ok(ApprovedAction::MergeStake {
                            destination: account.address.dup(),
                            source: source_account.dup(),
                            staker: caller.dup(),
                        })
                    }
                },
                StakeState::Uninitialized => Err(DenyReason::Uninitialized),
                StakeState::RewardsPool => Err(DenyReason::RewardsPool),
            }
        },
        OperationKind::Split { new_account, amount } => {
            match &account.state {
                StakeState::Initialized { authorized_staker, .. } => {
                    if !caller.equals(authorized_staker) {
                        Err(DenyReason::NotAuthorized { authorized: authorized_staker.dup() })
                    } else if *amount > account.lamport_balance {
                        Err(DenyReason::InsufficientBalance {
                            available: account.lamport_balance,
                            requested: *amount,
                        })
                    } else {
                        Ok(ApprovedAction::SplitStake {
                            stake_account: account.address.dup(),
                            new_account: new_account.dup(),
                            staker: caller.dup(),
                            amount: *amount,
                        })
                    }
                },
                StakeState::Delegated { authorized_staker, .. } => {
                    if !caller.equals(authorized_staker) {
                        Err(DenyReason::NotAuthorized { authorized: authorized_staker.dup() })
                    } else if *amount > account.lamport_balance {
                        Err(DenyReason::InsufficientBalance {
                            available: account.lamport_balance,
                            requested: *amount,
                        })
                    } else {
                        Ok(ApprovedAction::SplitStake {
                            stake_account: account.address.dup(),
                            new_account: new_account.dup(),
                            staker: caller.dup(),
                            amount: *amount,
                        })
                    }
                },
                StakeState::Uninitialized => Err(DenyReason::Uninitialized),
                StakeState::RewardsPool => Err(DenyReason::RewardsPool),
            }
        },
        OperationKind::Create { amount } => {
            match &account.state {
                StakeState::Uninitialized => Ok(ApprovedAction::CreateStake {
                    funder: caller.dup(),
                    new_account: account.address.dup(),
                    authority: caller.dup(),
                    amount: *amount,
                }),
                _ => Err(DenyReason::WrongState),
            }
        },
    }
}

} // verus!

