use scilla::address::Address;
use scilla::state::{StakeAccount, StakeState, ACTIVE_STAKE_EPOCH_BOUND};
use scilla::validate::{
    validate, ApprovedAction, DenyReason, OperationKind, OperationRequest,
};

fn addr(tag: u8) -> Address {
    Address::from_bytes(vec![tag; 32])
}

fn delegated_account(
    address: u8,
    staker: u8,
    withdrawer: u8,
    deactivation_epoch: u64,
    balance: u64,
) -> StakeAccount {
    StakeAccount {
        address: addr(address),
        state: StakeState::Delegated {
            authorized_staker: addr(staker),
            authorized_withdrawer: addr(withdrawer),
            voter: addr(9),
            activation_epoch: 5,
            deactivation_epoch,
        },
        lamport_balance: balance,
    }
}

fn deactivate_request(target: u8) -> OperationRequest {
    OperationRequest { target_account: addr(target), kind: OperationKind::Deactivate }
}

fn withdraw_request(target: u8, recipient: u8, amount: u64) -> OperationRequest {
    OperationRequest {
        target_account: addr(target),
        kind: OperationKind::Withdraw { recipient: addr(recipient), amount },
    }
}

#[test]
fn deactivate_active_account_approved() {
    let account = delegated_account(1, 2, 3, ACTIVE_STAKE_EPOCH_BOUND, 1000);
    let r = validate(&deactivate_request(1), &account, &addr(2), 100);
    match r {
        Ok(ApprovedAction::DeactivateStake { stake_account, staker }) => {
            assert!(stake_account.equals(&addr(1)));
            assert!(staker.equals(&addr(2)));
        }
        other => panic!("expected approval, got {}", kind_of(&other)),
    }
}

#[test]
fn deactivate_already_deactivating_denied_regardless_of_caller() {
    let account = delegated_account(1, 2, 3, 42, 1000);
    // even the authorized staker is denied
    let r = validate(&deactivate_request(1), &account, &addr(2), 100);
    match r {
        Err(DenyReason::AlreadyDeactivating { deactivation_epoch }) => {
            assert_eq!(deactivation_epoch, 42);
        }
        other => panic!("expected AlreadyDeactivating, got {}", kind_of(&other)),
    }
    // and so is a stranger
    let r = validate(&deactivate_request(1), &account, &addr(7), 100);
    assert!(matches!(r, Err(DenyReason::AlreadyDeactivating { deactivation_epoch: 42 })));
}

#[test]
fn deactivate_wrong_caller_denied_not_authorized() {
    let account = delegated_account(1, 2, 3, ACTIVE_STAKE_EPOCH_BOUND, 1000);
    let r = validate(&deactivate_request(1), &account, &addr(7), 100);
    match r {
        Err(DenyReason::NotAuthorized { authorized }) => {
            assert!(authorized.equals(&addr(2)));
        }
        other => panic!("expected NotAuthorized, got {}", kind_of(&other)),
    }
}

#[test]
fn deactivate_wrong_state_denied() {
    let account = StakeAccount {
        address: addr(1),
        state: StakeState::Initialized {
            authorized_staker: addr(2),
            authorized_withdrawer: addr(3),
        },
        lamport_balance: 1000,
    };
    let r = validate(&deactivate_request(1), &account, &addr(2), 100);
    assert!(matches!(r, Err(DenyReason::WrongState)));
}

#[test]
fn withdraw_still_active_denied() {
    let account = delegated_account(1, 2, 3, ACTIVE_STAKE_EPOCH_BOUND, 1000);
    let r = validate(&withdraw_request(1, 8, 100), &account, &addr(3), 100);
    assert!(matches!(r, Err(DenyReason::StillActive)));
}

#[test]
fn withdraw_cooling_down_reports_epochs_remaining() {
    let account = delegated_account(1, 2, 3, 50, 1000);
    let r = validate(&withdraw_request(1, 8, 100), &account, &addr(3), 47);
    match r {
        Err(DenyReason::CoolingDown { current_epoch, deactivation_epoch, epochs_remaining }) => {
            assert_eq!(current_epoch, 47);
            assert_eq!(deactivation_epoch, 50);
            assert_eq!(epochs_remaining, 3);
        }
        other => panic!("expected CoolingDown, got {}", kind_of(&other)),
    }
    // the boundary epoch still cools down, with zero remaining
    let r = validate(&withdraw_request(1, 8, 100), &account, &addr(3), 50);
    assert!(matches!(
        r,
        Err(DenyReason::CoolingDown { epochs_remaining: 0, .. })
    ));
}

#[test]
fn withdraw_insufficient_balance_reports_both_amounts() {
    // authorization and epoch checks pass; only the balance fails
    let account = delegated_account(1, 2, 3, 50, 1000);
    let r = validate(&withdraw_request(1, 8, 1001), &account, &addr(3), 51);
    match r {
        Err(DenyReason::InsufficientBalance { available, requested }) => {
            assert_eq!(available, 1000);
            assert_eq!(requested, 1001);
        }
        other => panic!("expected InsufficientBalance, got {}", kind_of(&other)),
    }
}

#[test]
fn withdraw_after_cooldown_approved() {
    let account = delegated_account(1, 2, 3, 50, 1000);
    let r = validate(&withdraw_request(1, 8, 1000), &account, &addr(3), 51);
    match r {
        Ok(ApprovedAction::WithdrawStake { stake_account, withdrawer, recipient, amount }) => {
            assert!(stake_account.equals(&addr(1)));
            assert!(withdrawer.equals(&addr(3)));
            assert!(recipient.equals(&addr(8)));
            assert_eq!(amount, 1000);
        }
        other => panic!("expected approval, got {}", kind_of(&other)),
    }
}

#[test]
fn withdraw_wrong_withdrawer_denied() {
    let account = delegated_account(1, 2, 3, 50, 1000);
    let r = validate(&withdraw_request(1, 8, 100), &account, &addr(2), 51);
    match r {
        Err(DenyReason::NotAuthorized { authorized }) => {
            assert!(authorized.equals(&addr(3)));
        }
        other => panic!("expected NotAuthorized, got {}", kind_of(&other)),
    }
}

#[test]
fn withdraw_from_initialized_account_checks_balance_only() {
    let account = StakeAccount {
        address: addr(1),
        state: StakeState::Initialized {
            authorized_staker: addr(2),
            authorized_withdrawer: addr(3),
        },
        lamport_balance: 500,
    };
    let r = validate(&withdraw_request(1, 8, 400), &account, &addr(3), 1);
    assert!(matches!(r, Ok(ApprovedAction::WithdrawStake { amount: 400, .. })));
    let r = validate(&withdraw_request(1, 8, 501), &account, &addr(3), 1);
    assert!(matches!(r, Err(DenyReason::InsufficientBalance { available: 500, requested: 501 })));
}

#[test]
fn withdraw_uninitialized_and_rewards_pool_denied() {
    let uninit = StakeAccount {
        address: addr(1),
        state: StakeState::Uninitialized,
        lamport_balance: 500,
    };
    let r = validate(&withdraw_request(1, 8, 1), &uninit, &addr(3), 1);
    assert!(matches!(r, Err(DenyReason::Uninitialized)));
    let pool = StakeAccount {
        address: addr(1),
        state: StakeState::RewardsPool,
        lamport_balance: 500,
    };
    let r = validate(&withdraw_request(1, 8, 1), &pool, &addr(3), 1);
    assert!(matches!(r, Err(DenyReason::RewardsPool)));
}

#[test]
fn delegate_initialized_account_approved() {
    let account = StakeAccount {
        address: addr(1),
        state: StakeState::Initialized {
            authorized_staker: addr(2),
            authorized_withdrawer: addr(3),
        },
        lamport_balance: 500,
    };
    let request = OperationRequest {
        target_account: addr(1),
        kind: OperationKind::Delegate { validator_vote_account: addr(9) },
    };
    let r = validate(&request, &account, &addr(2), 1);
    match r {
        Ok(ApprovedAction::DelegateStake { stake_account, staker, vote_account }) => {
            assert!(stake_account.equals(&addr(1)));
            assert!(staker.equals(&addr(2)));
            assert!(vote_account.equals(&addr(9)));
        }
        other => panic!("expected approval, got {}", kind_of(&other)),
    }
}

#[test]
fn delegate_active_delegation_denied() {
    let account = delegated_account(1, 2, 3, ACTIVE_STAKE_EPOCH_BOUND, 1000);
    let request = OperationRequest {
        target_account: addr(1),
        kind: OperationKind::Delegate { validator_vote_account: addr(9) },
    };
    let r = validate(&request, &account, &addr(2), 1);
    assert!(matches!(r, Err(DenyReason::StillActive)));
}

#[test]
fn merge_and_split_follow_the_staker() {
    let account = delegated_account(1, 2, 3, ACTIVE_STAKE_EPOCH_BOUND, 1000);
    let merge = OperationRequest {
        target_account: addr(1),
        kind: OperationKind::Merge { source_account: addr(4) },
    };
    assert!(validate(&merge, &account, &addr(2), 1).is_ok());
    assert!(matches!(
        validate(&merge, &account, &addr(7), 1),
        Err(DenyReason::NotAuthorized { .. })
    ));
    let split = OperationRequest {
        target_account: addr(1),
        kind: OperationKind::Split { new_account: addr(5), amount: 400 },
    };
    assert!(validate(&split, &account, &addr(2), 1).is_ok());
    assert!(matches!(
        validate(
            &OperationRequest {
                target_account: addr(1),
                kind: OperationKind::Split { new_account: addr(5), amount: 1001 },
            },
            &account,
            &addr(2),
            1
        ),
        Err(DenyReason::InsufficientBalance { available: 1000, requested: 1001 })
    ));
}

#[test]
fn create_requires_an_uninitialized_target() {
    let fresh = StakeAccount {
        address: addr(1),
        state: StakeState::Uninitialized,
        lamport_balance: 0,
    };
    let request = OperationRequest {
        target_account: addr(1),
        kind: OperationKind::Create { amount: 5_000_000 },
    };
    assert!(matches!(
        validate(&request, &fresh, &addr(2), 1),
        Ok(ApprovedAction::CreateStake { amount: 5_000_000, .. })
    ));
    let taken = delegated_account(1, 2, 3, ACTIVE_STAKE_EPOCH_BOUND, 1000);
    assert!(matches!(validate(&request, &taken, &addr(2), 1), Err(DenyReason::WrongState)));
}

fn kind_of(r: &Result<ApprovedAction, DenyReason>) -> &'static str {
    match r {
        Ok(_) => "Ok",
        Err(DenyReason::WrongState) => "WrongState",
        Err(DenyReason::Uninitialized) => "Uninitialized",
        Err(DenyReason::RewardsPool) => "RewardsPool",
        Err(DenyReason::AlreadyDeactivating { .. }) => "AlreadyDeactivating",
        Err(DenyReason::NotAuthorized { .. }) => "NotAuthorized",
        Err(DenyReason::StillActive) => "StillActive",
        Err(DenyReason::CoolingDown { .. }) => "CoolingDown",
        Err(DenyReason::InsufficientBalance { .. }) => "InsufficientBalance",
    }
}
