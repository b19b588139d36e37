use vstd::prelude::*;
use vstd::bytes::{spec_u64_to_le_bytes, u64_to_le_bytes};
use crate::address::{
    clock_sysvar_id, clock_sysvar_id_spec, rent_sysvar_id, rent_sysvar_id_spec, stake_config_id,
    stake_config_id_spec, stake_history_sysvar_id, stake_history_sysvar_id_spec, stake_program_id,
    stake_program_id_spec, system_program_id, system_program_id_spec, Address,
};
use crate::validate::{ApprovedAction, ApprovedActionModel};

verus! {

// An approved action becomes one or more program instructions. An
// instruction is described fully by the program it addresses, the accounts
// it touches (each with its signer and writability flags, in order), and its
// serialized argument bytes. The stake and system programs take a 4-byte
// little-endian variant tag followed by the variant's fields, each
// little-endian, addresses raw.

/// One account an instruction touches.
#[derive(Debug)]
pub struct AccountRef {
    pub address: Address,
    pub is_signer: bool,
    pub is_writable: bool,
}

/// A full description of one instruction, ready to be submitted.
#[derive(Debug)]
pub struct InstructionPlan {
    pub program_id: Address,
    pub accounts: Vec<AccountRef>,
    pub data: Vec<u8>,
}

#[verifier::ext_equal]
pub struct AccountRefModel {
    pub address: Seq<u8>,
    pub is_signer: bool,
    pub is_writable: bool,
}

#[verifier::ext_equal]
pub struct InstructionPlanModel {
    pub program_id: Seq<u8>,
    pub accounts: Seq<AccountRefModel>,
    pub data: Seq<u8>,
}

impl View for AccountRef {
    type V = AccountRefModel;

    open spec fn view(&self) -> AccountRefModel {
        AccountRefModel {
            address: self.address@,
            is_signer: self.is_signer,
            is_writable: self.is_writable,
        }
    }
}

impl View for InstructionPlan {
    type V = InstructionPlanModel;

    open spec fn view(&self) -> InstructionPlanModel {
        InstructionPlanModel {
            program_id: self.program_id@,
            accounts: self.accounts@.map_values(|a: AccountRef| a@),
            data: self.data@,
        }
    }
}

/// `n` zero bytes.
pub open spec fn zero_bytes(n: nat) -> Seq<u8> {
    Seq::new(n, |i: int| 0u8)
}

/// Argument bytes of a stake deactivation.
pub open spec fn deactivate_data() -> Seq<u8> {
    seq![5u8, 0u8, 0u8, 0u8]
}

/// Argument bytes of a stake withdrawal of `amount` atomic units.
pub open spec fn withdraw_data(amount: u64) -> Seq<u8> {
    seq![4u8, 0u8, 0u8, 0u8] + spec_u64_to_le_bytes(amount)
}

/// Argument bytes of a stake delegation.
pub open spec fn delegate_data() -> Seq<u8> {
    seq![2u8, 0u8, 0u8, 0u8]
}

/// Argument bytes of a stake merge.
pub open spec fn merge_data() -> Seq<u8> {
    seq![7u8, 0u8, 0u8, 0u8]
}

/// Argument bytes of a stake split of `amount` atomic units.
pub open spec fn split_data(amount: u64) -> Seq<u8> {
    seq![3u8, 0u8, 0u8, 0u8] + spec_u64_to_le_bytes(amount)
}

/// Argument bytes of a system allocation of `space` bytes.
pub open spec fn allocate_data(space: u64) -> Seq<u8> {
    seq![8u8, 0u8, 0u8, 0u8] + spec_u64_to_le_bytes(space)
}

/// Argument bytes of a system owner assignment.
pub open spec fn assign_data(owner: Seq<u8>) -> Seq<u8> {
    seq![1u8, 0u8, 0u8, 0u8] + owner
}

/// Argument bytes of a system account creation.
pub open spec fn create_account_data(lamports: u64, space: u64, owner: Seq<u8>) -> Seq<u8> {
    seq![0u8, 0u8, 0u8, 0u8] + spec_u64_to_le_bytes(lamports) + spec_u64_to_le_bytes(space) + owner
}

/// Argument bytes of a stake initialization: both authorities set to the
/// given addresses, no lockup (zero timestamp, zero epoch, zero custodian).
pub open spec fn initialize_data(staker: Seq<u8>, withdrawer: Seq<u8>) -> Seq<u8> {
    seq![0u8, 0u8, 0u8, 0u8] + staker + withdrawer + zero_bytes(48)
}

/// Bytes a fresh stake account must be allocated: the stake program's fixed
/// record size.
pub const STAKE_ACCOUNT_SPACE: u64 = 200;

pub open spec fn deactivate_plan(stake_account: Seq<u8>, staker: Seq<u8>) -> InstructionPlanModel {
    InstructionPlanModel {
        program_id: stake_program_id_spec(),
        accounts: seq![
            AccountRefModel { address: stake_account, is_signer: false, is_writable: true },
            AccountRefModel {
                address: clock_sysvar_id_spec(),
                is_signer: false,
                is_writable: false,
            },
            AccountRefModel { address: staker, is_signer: true, is_writable: false },
        ],
        data: deactivate_data(),
    }
}

pub open spec fn withdraw_plan(
    stake_account: Seq<u8>,
    withdrawer: Seq<u8>,
    recipient: Seq<u8>,
    amount: u64,
) -> InstructionPlanModel {
    InstructionPlanModel {
        program_id: stake_program_id_spec(),
        accounts: seq![
            AccountRefModel { address: stake_account, is_signer: false, is_writable: true },
            AccountRefModel { address: recipient, is_signer: false, is_writable: true },
            AccountRefModel {
                address: clock_sysvar_id_spec(),
                is_signer: false,
                is_writable: false,
            },
            AccountRefModel {
                address: stake_history_sysvar_id_spec(),
                is_signer: false,
                is_writable: false,
            },
            AccountRefModel { address: withdrawer, is_signer: true, is_writable: false },
        ],
        data: withdraw_data(amount),
    }
}

pub open spec fn delegate_plan(
    stake_account: Seq<u8>,
    staker: Seq<u8>,
    vote_account: Seq<u8>,
) -> InstructionPlanModel {
    InstructionPlanModel {
        program_id: stake_program_id_spec(),
        accounts: seq![
            AccountRefModel { address: stake_account, is_signer: false, is_writable: true },
            AccountRefModel { address: vote_account, is_signer: false, is_writable: false },
            AccountRefModel {
                address: clock_sysvar_id_spec(),
                is_signer: false,
                is_writable: false,
            },
            AccountRefModel {
                address: stake_history_sysvar_id_spec(),
                is_signer: false,
                is_writable: false,
            },
            AccountRefModel {
                address: stake_config_id_spec(),
                is_signer: false,
                is_writable: false,
            },
            AccountRefModel { address: staker, is_signer: true, is_writable: false },
        ],
        data: delegate_data(),
    }
}

pub open spec fn merge_plan(
    destination: Seq<u8>,
    source: Seq<u8>,
    staker: Seq<u8>,
) -> InstructionPlanModel {
    InstructionPlanModel {
        program_id: stake_program_id_spec(),
        accounts: seq![
            AccountRefModel { address: destination, is_signer: false, is_writable: true },
            AccountRefModel { address: source, is_signer: false, is_writable: true },
            AccountRefModel {
                address: clock_sysvar_id_spec(),
                is_signer: false,
                is_writable: false,
            },
            AccountRefModel {
                address: stake_history_sysvar_id_spec(),
                is_signer: false,
                is_writable: false,
            },
            AccountRefModel { address: staker, is_signer: true, is_writable: false },
        ],
        data: merge_data(),
    }
}

pub open spec fn allocate_plan(new_account: Seq<u8>) -> InstructionPlanModel {
    InstructionPlanModel {
        program_id: system_program_id_spec(),
        accounts: seq![
            AccountRefModel { address: new_account, is_signer: true, is_writable: true },
        ],
        data: allocate_data(STAKE_ACCOUNT_SPACE),
    }
}

pub open spec fn assign_plan(new_account: Seq<u8>) -> InstructionPlanModel {
    InstructionPlanModel {
        program_id: system_program_id_spec(),
        accounts: seq![
            AccountRefModel { address: new_account, is_signer: true, is_writable: true },
        ],
        data: assign_data(stake_program_id_spec()),
    }
}

pub open spec fn split_plan(
    stake_account: Seq<u8>,
    new_account: Seq<u8>,
    staker: Seq<u8>,
    amount: u64,
) -> InstructionPlanModel {
    InstructionPlanModel {
        program_id: stake_program_id_spec(),
        accounts: seq![
            AccountRefModel { address: stake_account, is_signer: false, is_writable: true },
            AccountRefModel { address: new_account, is_signer: false, is_writable: true },
            AccountRefModel { address: staker, is_signer: true, is_writable: false },
        ],
        data: split_data(amount),
    }
}

pub open spec fn create_account_plan(
    funder: Seq<u8>,
    new_account: Seq<u8>,
    lamports: u64,
) -> InstructionPlanModel {
    InstructionPlanModel {
        program_id: system_program_id_spec(),
        accounts: seq![
            AccountRefModel { address: funder, is_signer: true, is_writable: true },
            AccountRefModel { address: new_account, is_signer: true, is_writable: true },
        ],
        data: create_account_data(lamports, STAKE_ACCOUNT_SPACE, stake_program_id_spec()),
    }
}

pub open spec fn initialize_plan(
    new_account: Seq<u8>,
    staker: Seq<u8>,
    withdrawer: Seq<u8>,
) -> InstructionPlanModel {
    InstructionPlanModel {
        program_id: stake_program_id_spec(),
        accounts: seq![
            AccountRefModel { address: new_account, is_signer: false, is_writable: true },
            AccountRefModel { address: rent_sysvar_id_spec(), is_signer: false, is_writable: false },
        ],
        data: initialize_data(staker, withdrawer),
    }
}

/// Argument bytes of a system transfer of `lamports` atomic units.
pub open spec fn transfer_data(lamports: u64) -> Seq<u8> {
    seq![2u8, 0u8, 0u8, 0u8] + spec_u64_to_le_bytes(lamports)
}

pub open spec fn transfer_plan_spec(
    from: Seq<u8>,
    to: Seq<u8>,
    lamports: u64,
) -> InstructionPlanModel {
    InstructionPlanModel {
        program_id: system_program_id_spec(),
        accounts: seq![
            AccountRefModel { address: from, is_signer: true, is_writable: true },
            AccountRefModel { address: to, is_signer: false, is_writable: true },
        ],
        data: transfer_data(lamports),
    }
}

/// The instruction that moves `lamports` atomic units between wallet
/// accounts: exactly `transfer_plan_spec`.
pub fn transfer_plan(from: &Address, to: &Address, lamports: u64) -> (r: InstructionPlan)
    ensures
        r@ == transfer_plan_spec(from@, to@, lamports),
{
    let accounts: Vec<AccountRef> = vec![acct(from, true, true), acct(to, false, true)];
    let mut data: Vec<u8> = vec![2u8, 0u8, 0u8, 0u8];
    let mut le = u64_to_le_bytes(lamports);
    data.append(&mut le);
    proof {
        assert(data@ =~= transfer_data(lamports));
    }
    let r = InstructionPlan { program_id: system_program_id(), accounts, data };
    proof {
        assert(r@ =~~= transfer_plan_spec(from@, to@, lamports));
    }
    r
}

/// The instruction sequence an approved action translates to.
pub open spec fn plans_for(action: ApprovedActionModel) -> Seq<InstructionPlanModel> {
    match action {
        ApprovedActionModel::DeactivateStake { stake_account, staker } => seq![
            deactivate_plan(stake_account, staker),
        ],
        ApprovedActionModel::WithdrawStake { stake_account, withdrawer, recipient, amount } => seq![
            withdraw_plan(stake_account, withdrawer, recipient, amount),
        ],
        ApprovedActionModel::DelegateStake { stake_account, staker, vote_account } => seq![
            delegate_plan(stake_account, staker, vote_account),
        ],
        ApprovedActionModel::MergeStake { destination, source, staker } => seq![
            merge_plan(destination, source, staker),
        ],
        ApprovedActionModel::SplitStake { stake_account, new_account, staker, amount } => seq![
            allocate_plan(new_account),
            assign_plan(new_account),
            split_plan(stake_account, new_account, staker, amount),
        ],
        ApprovedActionModel::CreateStake { funder, new_account, authority, amount } => seq![
            create_account_plan(funder, new_account, amount),
            initialize_plan(new_account, authority, authority),
        ],
    }
}

/// An account reference by value.
fn acct(address: &Address, is_signer: bool, is_writable: bool) -> (r: AccountRef)
    ensures
        r@ == (AccountRefModel { address: address@, is_signer, is_writable }),
{
    AccountRef { address: address.dup(), is_signer, is_writable }
}

/// Appends `n` zero bytes.
fn push_zeros(data: &mut Vec<u8>, n: usize)
    ensures
        final(data)@ == old(data)@ + zero_bytes(n as nat),
    decreases n,
{
    let mut i: usize = 0;
    while i < n
        invariant
            i <= n,
            data@ == old(data)@ + zero_bytes(i as nat),
        decreases n - i,
    {
        data.push(0u8);
        proof {
            assert(old(data)@ + zero_bytes((i + 1) as nat) =~= (old(data)@ + zero_bytes(
                i as nat,
            )).push(0u8));
        }
        i += 1;
    }
}

/// Appends a copy of an address's 32 bytes.
fn push_address(data: &mut Vec<u8>, address: &Address)
    ensures
        final(data)@ == old(data)@ + address@,
{
    let mut copy = address.dup();
    data.append(&mut copy.bytes);
}

/// Translates an approved action into the instructions that perform it, in
/// submission order: exactly `plans_for` of the action.
pub fn build_instructions(action: &ApprovedAction) -> (r: Vec<InstructionPlan>)
    ensures
        r@.map_values(|p: InstructionPlan| p@) == plans_for(action@),
{
    match action {
        ApprovedAction::DeactivateStake { stake_account, staker } => {
            let accounts: Vec<AccountRef> = vec![
                acct(stake_account, false, true),
                acct(&clock_sysvar_id(), false, false),
                acct(staker, true, false),
            ];
            let data: Vec<u8> = vec![5u8, 0u8, 0u8, 0u8];
            let plan = InstructionPlan { program_id: stake_program_id(), accounts, data };
            let r: Vec<InstructionPlan> = vec![plan];
            proof {
                assert(r@.map_values(|p: InstructionPlan| p@) =~~= plans_for(action@));
            }
            r
        },
        ApprovedAction::WithdrawStake { stake_account, withdrawer, recipient, amount } => {
            let accounts: Vec<AccountRef> = vec![
                acct(stake_account, false, true),
                acct(recipient, false, true),
                acct(&clock_sysvar_id(), false, false),
                acct(&stake_history_sysvar_id(), false, false),
                acct(withdrawer, true, false),
            ];
            let mut data: Vec<u8> = vec![4u8, 0u8, 0u8, 0u8];
            let mut le = u64_to_le_bytes(*amount);
            data.append(&mut le);
            proof {
                assert(data@ =~= withdraw_data(*amount));
            }
            let plan = InstructionPlan { program_id: stake_program_id(), accounts, data };
            let r: Vec<InstructionPlan> = vec![plan];
            proof {
                assert(r@.map_values(|p: InstructionPlan| p@) =~~= plans_for(action@));
            }
            r
        },
        ApprovedAction::DelegateStake { stake_account, staker, vote_account } => {
            let accounts: Vec<AccountRef> = vec![
                acct(stake_account, false, true),
                acct(vote_account, false, false),
                acct(&clock_sysvar_id(), false, false),
                acct(&stake_history_sysvar_id(), false, false),
                acct(&stake_config_id(), false, false),
                acct(staker, true, false),
            ];
            let data: Vec<u8> = vec![2u8, 0u8, 0u8, 0u8];
            let plan = InstructionPlan { program_id: stake_program_id(), accounts, data };
            let r: Vec<InstructionPlan> = vec![plan];
            proof {
                assert(r@.map_values(|p: InstructionPlan| p@) =~~= plans_for(action@));
            }
            r
        },
        ApprovedAction::MergeStake { destination, source, staker } => {
            let accounts: Vec<AccountRef> = vec![
                acct(destination, false, true),
                acct(source, false, true),
                acct(&clock_sysvar_id(), false, false),
                acct(&stake_history_sysvar_id(), false, false),
                acct(staker, true, false),
            ];
            let data: Vec<u8> = vec![7u8, 0u8, 0u8, 0u8];
            let plan = InstructionPlan { program_id: stake_program_id(), accounts, data };
            let r: Vec<InstructionPlan> = vec![plan];
            proof {
                assert(r@.map_values(|p: InstructionPlan| p@) =~~= plans_for(action@));
            }
            r
        },
        ApprovedAction::SplitStake { stake_account, new_account, staker, amount } => {
            let allocate_accounts: Vec<AccountRef> = vec![acct(new_account, true, true)];
            let mut allocate_bytes: Vec<u8> = vec![8u8, 0u8, 0u8, 0u8];
            let mut le_space = u64_to_le_bytes(STAKE_ACCOUNT_SPACE);
            allocate_bytes.append(&mut le_space);
            proof {
                assert(allocate_bytes@ =~= allocate_data(STAKE_ACCOUNT_SPACE));
            }
            let allocate = InstructionPlan {
                program_id: system_program_id(),
                accounts: allocate_accounts,
                data: allocate_bytes,
            };

            let assign_accounts: Vec<AccountRef> = vec![acct(new_account, true, true)];
            let mut assign_bytes: Vec<u8> = vec![1u8, 0u8, 0u8, 0u8];
            push_address(&mut assign_bytes, &stake_program_id());
            proof {
                assert(assign_bytes@ =~= assign_data(stake_program_id_spec()));
            }
            let assign = InstructionPlan {
                program_id: system_program_id(),
                accounts: assign_accounts,
                data: assign_bytes,
            };

            let split_accounts: Vec<AccountRef> = vec![
                acct(stake_account, false, true),
                acct(new_account, false, true),
                acct(staker, true, false),
            ];
            let mut split_bytes: Vec<u8> = vec![3u8, 0u8, 0u8, 0u8];
            let mut le_amount = u64_to_le_bytes(*amount);
            split_bytes.append(&mut le_amount);
            proof {
                assert(split_bytes@ =~= split_data(*amount));
            }
            let split = InstructionPlan {
                program_id: stake_program_id(),
                accounts: split_accounts,
                data: split_bytes,
            };

            let r: Vec<InstructionPlan> = vec![allocate, assign, split];
            proof {
                assert(r@.map_values(|p: InstructionPlan| p@) =~~= plans_for(action@));
            }
            r
        },
        ApprovedAction::CreateStake { funder, new_account, authority, amount } => {
            let create_accounts: Vec<AccountRef> = vec![
                acct(funder, true, true),
                acct(new_account, true, true),
            ];
            let mut create_bytes: Vec<u8> = vec![0u8, 0u8, 0u8, 0u8];
            let mut le_lamports = u64_to_le_bytes(*amount);
            create_bytes.append(&mut le_lamports);
            let mut le_space = u64_to_le_bytes(STAKE_ACCOUNT_SPACE);
            create_bytes.append(&mut le_space);
            push_address(&mut create_bytes, &stake_program_id());
            proof {
                assert(create_bytes@ =~= create_account_data(
                    *amount,
                    STAKE_ACCOUNT_SPACE,
                    stake_program_id_spec(),
                ));
            }
            let create = InstructionPlan {
                program_id: system_program_id(),
                accounts: create_accounts,
                data: create_bytes,
            };

            let initialize_accounts: Vec<AccountRef> = vec![
                acct(new_account, false, true),
                acct(&rent_sysvar_id(), false, false),
            ];
            let mut initialize_bytes: Vec<u8> = vec![0u8, 0u8, 0u8, 0u8];
            push_address(&mut initialize_bytes, authority);
            push_address(&mut initialize_bytes, authority);
            push_zeros(&mut initialize_bytes, 48);
            proof {
                assert(initialize_bytes@ =~= initialize_data(authority@, authority@));
            }
            let initialize = InstructionPlan {
                program_id: stake_program_id(),
                accounts: initialize_accounts,
                data: initialize_bytes,
            };

            let r: Vec<InstructionPlan> = vec![create, initialize];
            proof {
                assert(r@.map_values(|p: InstructionPlan| p@) =~~= plans_for(action@));
            }
            r
        },
    }
}

} // verus!
