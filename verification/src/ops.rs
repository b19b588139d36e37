use vstd::prelude::*;
use crate::address::stake_program_id_spec;
use crate::decode::parse_stake_state;
use crate::instruction::{
    build_instructions, deactivate_plan, plans_for, InstructionPlan, InstructionPlanModel,
};
use crate::reader::{read_result, read_stake_account, FetchOutcome, FetchOutcomeModel, ReadError,
    ReadErrorModel};
use crate::state::ACTIVE_STAKE_EPOCH_BOUND;
use crate::validate::{
    decide, validate, ApprovedActionModel, DenyReason, DenyReasonModel, OperationKindModel,
    OperationRequest, OperationRequestModel, StakeAccountModel, StakeStateModel,
};

verus! {

// The whole read-then-decide-then-plan pipeline, as one pure function of the
// fetch outcome. The caller fetches, hands the outcome in, and either gets
// the instructions to submit or the one error that explains why not. The
// pipeline is an optimistic pre-check: remote state may change between the
// read and the submission, and the node remains the final authority.

/// Why an operation produced no instructions.
#[derive(Debug)]
pub enum OperationError {
    /// No usable account came out of the fetch.
    Read { cause: ReadError },
    /// The account was read, and the rules deny the operation.
    Denied { reason: DenyReason },
}

pub enum OperationErrorModel {
    Read { cause: ReadErrorModel },
    Denied { reason: DenyReasonModel },
}

impl View for OperationError {
    type V = OperationErrorModel;

    open spec fn view(&self) -> OperationErrorModel {
        match self {
            OperationError::Read { cause } => OperationErrorModel::Read { cause: cause@ },
            OperationError::Denied { reason } => OperationErrorModel::Denied { reason: reason@ },
        }
    }
}

/// What preparing an operation must produce: the planned instructions, or
/// the first error the read or the rules dictate.
pub open spec fn prepare_result(
    request: OperationRequestModel,
    outcome: FetchOutcomeModel,
    caller: Seq<u8>,
    current_epoch: u64,
) -> Result<Seq<InstructionPlanModel>, OperationErrorModel> {
    match read_result(request.target_account, outcome) {
        Err(cause) => Err(OperationErrorModel::Read { cause }),
        Ok(account) => match decide(request, account, caller, current_epoch) {
            Err(reason) => Err(OperationErrorModel::Denied { reason }),
            Ok(action) => Ok(plans_for(action)),
        },
    }
}

/// The view of a whole preparation outcome.
pub open spec fn prepare_view(r: Result<Vec<InstructionPlan>, OperationError>) -> Result<
    Seq<InstructionPlanModel>,
    OperationErrorModel,
> {
    match r {
        Ok(plans) => Ok(plans@.map_values(|p: InstructionPlan| p@)),
        Err(e) => Err(e@),
    }
}

/// Runs one requested operation against one fetch outcome: classify the
/// account, decide the rules, and plan the instructions of the approved
/// action — exactly `prepare_result` of the inputs.
pub fn prepare_operation(
    request: &OperationRequest,
    outcome: FetchOutcome,
    caller: &crate::address::Address,
    current_epoch: u64,
) -> (r: Result<Vec<InstructionPlan>, OperationError>)
    requires
        request.wf(),
        caller.wf(),
    ensures
        prepare_view(r) == prepare_result(request@, outcome@, caller@, current_epoch),
{
    let account = match read_stake_account(&request.target_account, outcome) {
        Ok(account) => account,
        Err(cause) => {
            return Err(OperationError::Read { cause });
        },
    };
    let action = match validate(request, &account, caller, current_epoch) {
        Ok(action) => action,
        Err(reason) => {
            return Err(OperationError::Denied { reason });
        },
    };
    Ok(build_instructions(&action))
}

/// Law: a delegated account still at the active sentinel, acted on by its
/// authorized staker, approves deactivation, and the builder plans exactly
/// one instruction: the deactivation of that account signed by that staker.
pub proof fn lemma_deactivate_approved_one_instruction(
    target: Seq<u8>,
    balance: u64,
    staker: Seq<u8>,
    withdrawer: Seq<u8>,
    voter: Seq<u8>,
    activation_epoch: u64,
    current_epoch: u64,
)
    ensures
        ({
            let account = StakeAccountModel {
                address: target,
                state: StakeStateModel::Delegated {
                    staker,
                    withdrawer,
                    voter,
                    activation_epoch,
                    deactivation_epoch: ACTIVE_STAKE_EPOCH_BOUND,
                },
                lamport_balance: balance,
            };
            let request = OperationRequestModel {
                target_account: target,
                kind: OperationKindModel::Deactivate,
            };
            let decision = decide(request, account, staker, current_epoch);
            decision == Ok::<ApprovedActionModel, DenyReasonModel>(
                ApprovedActionModel::DeactivateStake { stake_account: target, staker },
            ) && plans_for(decision->Ok_0).len() == 1 && plans_for(decision->Ok_0)[0]
                == deactivate_plan(target, staker)
        }),
{
}

/// Law: when the fetched payload denotes an uninitialized account, a
/// withdrawal is denied as `Uninitialized` — the pipeline plans nothing.
pub proof fn lemma_withdraw_uninitialized_denied(
    target: Seq<u8>,
    lamports: u64,
    data: Seq<u8>,
    recipient: Seq<u8>,
    amount: u64,
    caller: Seq<u8>,
    current_epoch: u64,
)
    requires
        parse_stake_state(data) == Ok::<StakeStateModel, crate::decode::DecodeError>(
            StakeStateModel::Uninitialized,
        ),
    ensures
        ({
            let outcome = FetchOutcomeModel::Found {
                owner: stake_program_id_spec(),
                lamports,
                data,
            };
            let request = OperationRequestModel {
                target_account: target,
                kind: OperationKindModel::Withdraw { recipient, amount },
            };
            prepare_result(request, outcome, caller, current_epoch) == Err::<
                Seq<InstructionPlanModel>,
                OperationErrorModel,
            >(OperationErrorModel::Denied { reason: DenyReasonModel::Uninitialized })
        }),
{
}

/// Law: when the fetch reports that the address holds no account, the
/// pipeline reports exactly that — whatever the request, the caller and the
/// epoch; the rules are never consulted.
pub proof fn lemma_not_found_propagates(
    request: OperationRequestModel,
    caller: Seq<u8>,
    current_epoch: u64,
)
    ensures
        prepare_result(request, FetchOutcomeModel::NotFound, caller, current_epoch) == Err::<
            Seq<InstructionPlanModel>,
            OperationErrorModel,
        >(OperationErrorModel::Read { cause: ReadErrorModel::NotFound }),
{
}

} // verus!
