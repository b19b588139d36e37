#![allow(deprecated)]

use scilla::address::Address;
use scilla::ops::{prepare_operation, OperationError};
use scilla::reader::{read_stake_account, FetchOutcome, ReadError};
use scilla::state::ACTIVE_STAKE_EPOCH_BOUND;
use scilla::validate::{DenyReason, OperationKind, OperationRequest};

use solana_pubkey::Pubkey;
use solana_stake_interface::state::{Authorized, Delegation, Lockup, Meta, Stake, StakeStateV2};
use solana_stake_interface::stake_flags::StakeFlags;

fn addr(tag: u8) -> Address {
    Address::from_bytes(vec![tag; 32])
}

fn stake_owner() -> Address {
    scilla::address::stake_program_id()
}

fn pk(tag: u8) -> Pubkey {
    Pubkey::new_from_array([tag; 32])
}

fn delegated_bytes(staker: u8, withdrawer: u8, deactivation_epoch: u64) -> Vec<u8> {
    bincode::serialize(&StakeStateV2::Stake(
        Meta {
            rent_exempt_reserve: 2_282_880,
            authorized: Authorized { staker: pk(staker), withdrawer: pk(withdrawer) },
            lockup: Lockup::default(),
        },
        Stake {
            delegation: Delegation {
                voter_pubkey: pk(9),
                stake: 1_000,
                activation_epoch: 1,
                deactivation_epoch,
                warmup_cooldown_rate: 0.25,
            },
            credits_observed: 0,
        },
        StakeFlags::empty(),
    ))
    .unwrap()
}

#[test]
fn deactivate_end_to_end_builds_one_instruction() {
    // a delegated, still-active account, acted on by its staker
    let request = OperationRequest { target_account: addr(1), kind: OperationKind::Deactivate };
    let outcome = FetchOutcome::Found {
        owner: stake_owner(),
        lamports: 1_000_000,
        data: delegated_bytes(2, 3, ACTIVE_STAKE_EPOCH_BOUND),
    };
    let plans = prepare_operation(&request, outcome, &addr(2), 100).unwrap();
    assert_eq!(plans.len(), 1);
    assert_eq!(plans[0].data.as_slice(), &[5, 0, 0, 0]);
    assert_eq!(plans[0].accounts.len(), 3);
    assert!(plans[0].accounts[0].address.equals(&addr(1)));
    assert!(plans[0].accounts[2].address.equals(&addr(2)));
}

#[test]
fn withdraw_from_uninitialized_account_denied_before_any_instruction() {
    let request = OperationRequest {
        target_account: addr(1),
        kind: OperationKind::Withdraw { recipient: addr(8), amount: 100 },
    };
    let outcome = FetchOutcome::Found {
        owner: stake_owner(),
        lamports: 1_000_000,
        data: bincode::serialize(&StakeStateV2::Uninitialized).unwrap(),
    };
    let r = prepare_operation(&request, outcome, &addr(3), 100);
    match r {
        Err(OperationError::Denied { reason: DenyReason::Uninitialized }) => {}
        _ => panic!("expected the uninitialized denial"),
    }
}

#[test]
fn not_found_propagates_without_validation() {
    let request = OperationRequest { target_account: addr(1), kind: OperationKind::Deactivate };
    let r = prepare_operation(&request, FetchOutcome::NotFound, &addr(2), 100);
    match r {
        Err(OperationError::Read { cause: ReadError::NotFound }) => {}
        _ => panic!("expected NotFound to pass through"),
    }
}

#[test]
fn network_error_propagates_with_its_message() {
    let request = OperationRequest { target_account: addr(1), kind: OperationKind::Deactivate };
    let outcome = FetchOutcome::NetworkError { message: String::from("connection refused") };
    let r = prepare_operation(&request, outcome, &addr(2), 100);
    match r {
        Err(OperationError::Read { cause: ReadError::NetworkError { message } }) => {
            assert_eq!(message, "connection refused");
        }
        _ => panic!("expected the network error to pass through"),
    }
}

#[test]
fn foreign_owner_is_an_ownership_error() {
    let outcome = FetchOutcome::Found {
        owner: addr(42),
        lamports: 5,
        data: delegated_bytes(2, 3, ACTIVE_STAKE_EPOCH_BOUND),
    };
    let r = read_stake_account(&addr(1), outcome);
    match r {
        Err(ReadError::OwnershipError { owner }) => {
            assert!(owner.equals(&addr(42)));
        }
        _ => panic!("expected the ownership error"),
    }
}

#[test]
fn garbage_payload_is_a_decode_error() {
    let outcome = FetchOutcome::Found {
        owner: stake_owner(),
        lamports: 5,
        data: vec![99, 99, 99, 99],
    };
    let r = read_stake_account(&addr(1), outcome);
    assert!(matches!(r, Err(ReadError::DecodeError { .. })));
}

#[test]
fn reader_classifies_a_found_account() {
    let outcome = FetchOutcome::Found {
        owner: stake_owner(),
        lamports: 777,
        data: delegated_bytes(2, 3, 50),
    };
    let account = read_stake_account(&addr(1), outcome).unwrap();
    assert_eq!(account.lamport_balance, 777);
    assert!(account.address.equals(&addr(1)));
}

#[test]
fn cooling_down_denial_flows_through_the_pipeline() {
    let request = OperationRequest {
        target_account: addr(1),
        kind: OperationKind::Withdraw { recipient: addr(8), amount: 100 },
    };
    let outcome = FetchOutcome::Found {
        owner: stake_owner(),
        lamports: 1_000_000,
        data: delegated_bytes(2, 3, 50),
    };
    let r = prepare_operation(&request, outcome, &addr(3), 48);
    match r {
        Err(OperationError::Denied {
            reason: DenyReason::CoolingDown { current_epoch, deactivation_epoch, epochs_remaining },
        }) => {
            assert_eq!(current_epoch, 48);
            assert_eq!(deactivation_epoch, 50);
            assert_eq!(epochs_remaining, 2);
        }
        _ => panic!("expected the cooling-down denial"),
    }
}
