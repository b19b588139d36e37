#![allow(deprecated)]

use scilla::address::Address;
use scilla::decode::{decode_stake_state, DecodeError};
use scilla::instruction::{build_instructions, AccountRef, InstructionPlan};
use scilla::state::{StakeState, ACTIVE_STAKE_EPOCH_BOUND};
use scilla::validate::ApprovedAction;

use solana_instruction::Instruction;
use solana_pubkey::Pubkey;
use solana_stake_interface::instruction as stake_ix;
use solana_stake_interface::state::{Authorized, Delegation, Lockup, Meta, Stake, StakeStateV2};
use solana_stake_interface::stake_flags::StakeFlags;

fn addr(tag: u8) -> Address {
    Address::from_bytes(vec![tag; 32])
}

fn pk(tag: u8) -> Pubkey {
    Pubkey::new_from_array([tag; 32])
}

fn meta(staker: u8, withdrawer: u8) -> Meta {
    Meta {
        rent_exempt_reserve: 2_282_880,
        authorized: Authorized { staker: pk(staker), withdrawer: pk(withdrawer) },
        lockup: Lockup::default(),
    }
}

fn stake(voter: u8, activation: u64, deactivation: u64) -> Stake {
    Stake {
        delegation: Delegation {
            voter_pubkey: pk(voter),
            stake: 7_000_000,
            activation_epoch: activation,
            deactivation_epoch: deactivation,
            warmup_cooldown_rate: 0.25,
        },
        credits_observed: 123,
    }
}

fn assert_plan_matches(plan: &InstructionPlan, ix: &Instruction) {
    assert_eq!(
        plan.program_id.bytes.as_slice(),
        ix.program_id.to_bytes().as_slice(),
        "program id"
    );
    assert_eq!(plan.accounts.len(), ix.accounts.len(), "account count");
    for (mine, theirs) in plan.accounts.iter().zip(ix.accounts.iter()) {
        let AccountRef { address, is_signer, is_writable } = mine;
        assert_eq!(address.bytes.as_slice(), theirs.pubkey.to_bytes().as_slice(), "address");
        assert_eq!(*is_signer, theirs.is_signer, "signer flag");
        assert_eq!(*is_writable, theirs.is_writable, "writable flag");
    }
    assert_eq!(plan.data.as_slice(), ix.data.as_slice(), "data");
}

#[test]
fn program_id_matches_the_stake_interface() {
    assert_eq!(
        scilla::address::stake_program_id().bytes.as_slice(),
        solana_stake_interface::program::id().to_bytes().as_slice()
    );
}

#[test]
fn decode_matches_bincode_uninitialized() {
    let bytes = bincode::serialize(&StakeStateV2::Uninitialized).unwrap();
    let state = decode_stake_state(&bytes).unwrap();
    assert!(matches!(state, StakeState::Uninitialized));
}

#[test]
fn decode_matches_bincode_rewards_pool() {
    let bytes = bincode::serialize(&StakeStateV2::RewardsPool).unwrap();
    let state = decode_stake_state(&bytes).unwrap();
    assert!(matches!(state, StakeState::RewardsPool));
}

#[test]
fn decode_matches_bincode_initialized() {
    let bytes = bincode::serialize(&StakeStateV2::Initialized(meta(11, 22))).unwrap();
    let state = decode_stake_state(&bytes).unwrap();
    match state {
        StakeState::Initialized { authorized_staker, authorized_withdrawer } => {
            assert!(authorized_staker.equals(&addr(11)));
            assert!(authorized_withdrawer.equals(&addr(22)));
        }
        _ => panic!("wrong state"),
    }
}

#[test]
fn decode_matches_bincode_delegated() {
    let bytes = bincode::serialize(&StakeStateV2::Stake(
        meta(11, 22),
        stake(33, 5, 907),
        StakeFlags::empty(),
    ))
    .unwrap();
    let state = decode_stake_state(&bytes).unwrap();
    match state {
        StakeState::Delegated {
            authorized_staker,
            authorized_withdrawer,
            voter,
            activation_epoch,
            deactivation_epoch,
        } => {
            assert!(authorized_staker.equals(&addr(11)));
            assert!(authorized_withdrawer.equals(&addr(22)));
            assert!(voter.equals(&addr(33)));
            assert_eq!(activation_epoch, 5);
            assert_eq!(deactivation_epoch, 907);
        }
        _ => panic!("wrong state"),
    }
}

#[test]
fn decode_accepts_trailing_padding() {
    // on-chain stake accounts hold a fixed 200 bytes
    let mut bytes = bincode::serialize(&StakeStateV2::Stake(
        meta(1, 2),
        stake(3, 1, ACTIVE_STAKE_EPOCH_BOUND),
        StakeFlags::empty(),
    ))
    .unwrap();
    while bytes.len() < 200 {
        bytes.push(0);
    }
    assert!(decode_stake_state(&bytes).is_ok());
}

#[test]
fn decode_rejects_bad_payloads() {
    assert!(matches!(decode_stake_state(&[]), Err(DecodeError::TooShort)));
    assert!(matches!(decode_stake_state(&[1, 0]), Err(DecodeError::TooShort)));
    // a tag that names metadata, without the metadata
    assert!(matches!(decode_stake_state(&[1, 0, 0, 0, 9, 9]), Err(DecodeError::TooShort)));
    // an unknown tag
    assert!(matches!(decode_stake_state(&[7, 0, 0, 0]), Err(DecodeError::UnknownTag)));
    let e = decode_stake_state(&[]).unwrap_err();
    assert!(e.is_too_short());
}

#[test]
fn deactivate_plan_matches_the_stake_interface() {
    let plans = build_instructions(&ApprovedAction::DeactivateStake {
        stake_account: addr(1),
        staker: addr(2),
    });
    let ix = stake_ix::deactivate_stake(&pk(1), &pk(2));
    assert_eq!(plans.len(), 1);
    assert_plan_matches(&plans[0], &ix);
}

#[test]
fn withdraw_plan_matches_the_stake_interface() {
    let plans = build_instructions(&ApprovedAction::WithdrawStake {
        stake_account: addr(1),
        withdrawer: addr(2),
        recipient: addr(3),
        amount: 123_456_789,
    });
    let ix = stake_ix::withdraw(&pk(1), &pk(2), &pk(3), 123_456_789, None);
    assert_eq!(plans.len(), 1);
    assert_plan_matches(&plans[0], &ix);
}

#[test]
fn delegate_plan_matches_the_stake_interface() {
    let plans = build_instructions(&ApprovedAction::DelegateStake {
        stake_account: addr(1),
        staker: addr(2),
        vote_account: addr(3),
    });
    let ix = stake_ix::delegate_stake(&pk(1), &pk(2), &pk(3));
    assert_eq!(plans.len(), 1);
    assert_plan_matches(&plans[0], &ix);
}

#[test]
fn merge_plan_matches_the_stake_interface() {
    let plans = build_instructions(&ApprovedAction::MergeStake {
        destination: addr(1),
        source: addr(2),
        staker: addr(3),
    });
    let ixs = stake_ix::merge(&pk(1), &pk(2), &pk(3));
    assert_eq!(plans.len(), ixs.len());
    for (plan, ix) in plans.iter().zip(ixs.iter()) {
        assert_plan_matches(plan, ix);
    }
}

#[test]
fn split_plan_matches_the_stake_interface() {
    let plans = build_instructions(&ApprovedAction::SplitStake {
        stake_account: addr(1),
        new_account: addr(2),
        staker: addr(3),
        amount: 42,
    });
    let ixs = stake_ix::split(&pk(1), &pk(3), 42, &pk(2));
    assert_eq!(plans.len(), ixs.len());
    for (plan, ix) in plans.iter().zip(ixs.iter()) {
        assert_plan_matches(plan, ix);
    }
}

#[test]
fn transfer_plan_encodes_a_system_transfer() {
    let plan = scilla::instruction::transfer_plan(&addr(1), &addr(2), 0x0102_0304_0506_0708);
    assert_eq!(plan.program_id.bytes, vec![0u8; 32]);
    assert_eq!(plan.accounts.len(), 2);
    assert_eq!(plan.accounts[0].address.bytes, vec![1u8; 32]);
    assert!(plan.accounts[0].is_signer && plan.accounts[0].is_writable);
    assert_eq!(plan.accounts[1].address.bytes, vec![2u8; 32]);
    assert!(!plan.accounts[1].is_signer && plan.accounts[1].is_writable);
    // the system program's transfer variant, then the amount little-endian
    assert_eq!(plan.data, vec![2, 0, 0, 0, 8, 7, 6, 5, 4, 3, 2, 1]);
}

#[test]
fn create_plan_matches_the_stake_interface() {
    let plans = build_instructions(&ApprovedAction::CreateStake {
        funder: addr(1),
        new_account: addr(2),
        authority: addr(1),
        amount: 5_000_000,
    });
    let ixs = stake_ix::create_account(
        &pk(1),
        &pk(2),
        &Authorized { staker: pk(1), withdrawer: pk(1) },
        &Lockup::default(),
        5_000_000,
    );
    assert_eq!(plans.len(), ixs.len());
    for (plan, ix) in plans.iter().zip(ixs.iter()) {
        assert_plan_matches(plan, ix);
    }
}
