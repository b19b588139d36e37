use vstd::prelude::*;

verus! {

/// A 32-byte on-chain public identifier (account address, program id).
#[derive(Debug)]
pub struct Address {
    pub bytes: Vec<u8>,
}

/// Number of bytes in an on-chain address.
pub const ADDRESS_LEN: usize = 32;

impl View for Address {
    type V = Seq<u8>;

    open spec fn view(&self) -> Seq<u8> {
        self.bytes@
    }
}

impl Address {
    /// A well-formed address holds exactly 32 bytes.
    pub open spec fn wf(&self) -> bool {
        self.bytes@.len() == ADDRESS_LEN
    }

    /// Wraps raw bytes as an address; callers must supply exactly 32 bytes.
    pub fn from_bytes(bytes: Vec<u8>) -> (r: Address)
        requires
            bytes@.len() == ADDRESS_LEN,
        ensures
            r@ == bytes@,
            r.wf(),
    {
        Address { bytes }
    }

    /// Byte-for-byte equality of two addresses.
    pub fn equals(&self, other: &Address) -> (r: bool)
        ensures
            r == (self@ == other@),
    {
        if self.bytes.len() != other.bytes.len() {
            return false;
        }
        let n = self.bytes.len();
        let mut i: usize = 0;
        while i < n
            invariant
                n == self.bytes@.len(),
                n == other.bytes@.len(),
                i <= n,
                forall|j: int| 0 <= j < i ==> self.bytes@[j] == other.bytes@[j],
            decreases n - i,
        {
            if self.bytes[i] != other.bytes[i] {
                return false;
            }
            i += 1;
        }
        proof {
            assert(self@ =~= other@);
        }
        true
    }

    /// A fresh copy holding the same bytes.
    pub fn dup(&self) -> (r: Address)
        ensures
            r@ == self@,
    {
        let n = self.bytes.len();
        let mut v: Vec<u8> = Vec::new();
        let mut i: usize = 0;
        while i < n
            invariant
                n == self.bytes@.len(),
                i <= n,
                v@ == self.bytes@.take(i as int),
            decreases n - i,
        {
            v.push(self.bytes[i]);
            proof {
                assert(self.bytes@.take(i + 1 as int) =~= self.bytes@.take(i as int).push(
                    self.bytes@[i as int],
                ));
            }
            i += 1;
        }
        proof {
            assert(v@ =~= self@);
        }
        Address { bytes: v }
    }
}

/// The stake program's address, `Stake11111111111111111111111111111111111111`.
pub open spec fn stake_program_id_spec() -> Seq<u8> {
    seq![
        6u8, 161u8, 216u8, 23u8, 145u8, 55u8, 84u8, 42u8, 152u8, 52u8, 55u8, 189u8, 254u8, 42u8,
        122u8, 178u8, 85u8, 127u8, 83u8, 92u8, 138u8, 120u8, 114u8, 43u8, 104u8, 164u8, 157u8,
        192u8, 0u8, 0u8, 0u8, 0u8,
    ]
}

/// The system program's address (all zero bytes).
pub open spec fn system_program_id_spec() -> Seq<u8> {
    seq![
        0u8, 0u8, 0u8, 0u8, 0u8, 0u8, 0u8, 0u8, 0u8, 0u8, 0u8, 0u8, 0u8, 0u8, 0u8, 0u8, 0u8, 0u8,
        0u8, 0u8, 0u8, 0u8, 0u8, 0u8, 0u8, 0u8, 0u8, 0u8, 0u8, 0u8, 0u8, 0u8,
    ]
}

/// The clock sysvar address, `SysvarC1ock11111111111111111111111111111111`.
pub open spec fn clock_sysvar_id_spec() -> Seq<u8> {
    seq![
        6u8, 167u8, 213u8, 23u8, 24u8, 199u8, 116u8, 201u8, 40u8, 86u8, 99u8, 152u8, 105u8, 29u8,
        94u8, 182u8, 139u8, 94u8, 184u8, 163u8, 155u8, 75u8, 109u8, 92u8, 115u8, 85u8, 91u8, 33u8,
        0u8, 0u8, 0u8, 0u8,
    ]
}

/// The stake-history sysvar address, `SysvarStakeHistory1111111111111111111111111`.
pub open spec fn stake_history_sysvar_id_spec() -> Seq<u8> {
    seq![
        6u8, 167u8, 213u8, 23u8, 25u8, 53u8, 132u8, 208u8, 254u8, 237u8, 155u8, 179u8, 67u8, 29u8,
        19u8, 32u8, 107u8, 229u8, 68u8, 40u8, 27u8, 87u8, 184u8, 86u8, 108u8, 197u8, 55u8, 95u8,
        244u8, 0u8, 0u8, 0u8,
    ]
}

/// The rent sysvar address, `SysvarRent111111111111111111111111111111111`.
pub open spec fn rent_sysvar_id_spec() -> Seq<u8> {
    seq![
        6u8, 167u8, 213u8, 23u8, 25u8, 44u8, 92u8, 81u8, 33u8, 140u8, 201u8, 76u8, 61u8, 74u8,
        241u8, 127u8, 88u8, 218u8, 238u8, 8u8, 155u8, 161u8, 253u8, 68u8, 227u8, 219u8, 217u8,
        138u8, 0u8, 0u8, 0u8, 0u8,
    ]
}

/// The (legacy) stake-config account address,
/// `StakeConfig11111111111111111111111111111111`.
pub open spec fn stake_config_id_spec() -> Seq<u8> {
    seq![
        6u8, 161u8, 216u8, 23u8, 165u8, 2u8, 5u8, 11u8, 104u8, 7u8, 145u8, 230u8, 206u8, 109u8,
        184u8, 142u8, 30u8, 91u8, 113u8, 80u8, 246u8, 31u8, 198u8, 121u8, 10u8, 78u8, 180u8,
        209u8, 0u8, 0u8, 0u8, 0u8,
    ]
}

/// The stake program's address as a value.
pub fn stake_program_id() -> (r: Address)
    ensures
        r@ == stake_program_id_spec(),
        r.wf(),
{
    let v: Vec<u8> = vec![
        6u8, 161u8, 216u8, 23u8, 145u8, 55u8, 84u8, 42u8, 152u8, 52u8, 55u8, 189u8, 254u8, 42u8,
        122u8, 178u8, 85u8, 127u8, 83u8, 92u8, 138u8, 120u8, 114u8, 43u8, 104u8, 164u8, 157u8,
        192u8, 0u8, 0u8, 0u8, 0u8,
    ];
    proof {
        assert(v@ =~= stake_program_id_spec());
    }
    Address { bytes: v }
}

/// The system program's address as a value.
pub fn system_program_id() -> (r: Address)
    ensures
        r@ == system_program_id_spec(),
        r.wf(),
{
    let v: Vec<u8> = vec![
        0u8, 0u8, 0u8, 0u8, 0u8, 0u8, 0u8, 0u8, 0u8, 0u8, 0u8, 0u8, 0u8, 0u8, 0u8, 0u8, 0u8, 0u8,
        0u8, 0u8, 0u8, 0u8, 0u8, 0u8, 0u8, 0u8, 0u8, 0u8, 0u8, 0u8, 0u8, 0u8,
    ];
    proof {
        assert(v@ =~= system_program_id_spec());
    }
    Address { bytes: v }
}

/// The clock sysvar address as a value.
pub fn clock_sysvar_id() -> (r: Address)
    ensures
        r@ == clock_sysvar_id_spec(),
        r.wf(),
{
    let v: Vec<u8> = vec![
        6u8, 167u8, 213u8, 23u8, 24u8, 199u8, 116u8, 201u8, 40u8, 86u8, 99u8, 152u8, 105u8, 29u8,
        94u8, 182u8, 139u8, 94u8, 184u8, 163u8, 155u8, 75u8, 109u8, 92u8, 115u8, 85u8, 91u8, 33u8,
        0u8, 0u8, 0u8, 0u8,
    ];
    proof {
        assert(v@ =~= clock_sysvar_id_spec());
    }
    Address { bytes: v }
}

/// The stake-history sysvar address as a value.
pub fn stake_history_sysvar_id() -> (r: Address)
    ensures
        r@ == stake_history_sysvar_id_spec(),
        r.wf(),
{
    let v: Vec<u8> = vec![
        6u8, 167u8, 213u8, 23u8, 25u8, 53u8, 132u8, 208u8, 254u8, 237u8, 155u8, 179u8, 67u8, 29u8,
        19u8, 32u8, 107u8, 229u8, 68u8, 40u8, 27u8, 87u8, 184u8, 86u8, 108u8, 197u8, 55u8, 95u8,
        244u8, 0u8, 0u8, 0u8,
    ];
    proof {
        assert(v@ =~= stake_history_sysvar_id_spec());
    }
    Address { bytes: v }
}

/// The rent sysvar address as a value.
pub fn rent_sysvar_id() -> (r: Address)
    ensures
        r@ == rent_sysvar_id_spec(),
        r.wf(),
{
    let v: Vec<u8> = vec![
        6u8, 167u8, 213u8, 23u8, 25u8, 44u8, 92u8, 81u8, 33u8, 140u8, 201u8, 76u8, 61u8, 74u8,
        241u8, 127u8, 88u8, 218u8, 238u8, 8u8, 155u8, 161u8, 253u8, 68u8, 227u8, 219u8, 217u8,
        138u8, 0u8, 0u8, 0u8, 0u8,
    ];
    proof {
        assert(v@ =~= rent_sysvar_id_spec());
    }
    Address { bytes: v }
}

/// The legacy stake-config account address as a value.
pub fn stake_config_id() -> (r: Address)
    ensures
        r@ == stake_config_id_spec(),
        r.wf(),
{
    let v: Vec<u8> = vec![
        6u8, 161u8, 216u8, 23u8, 165u8, 2u8, 5u8, 11u8, 104u8, 7u8, 145u8, 230u8, 206u8, 109u8,
        184u8, 142u8, 30u8, 91u8, 113u8, 80u8, 246u8, 31u8, 198u8, 121u8, 10u8, 78u8, 180u8,
        209u8, 0u8, 0u8, 0u8, 0u8,
    ];
    proof {
        assert(v@ =~= stake_config_id_spec());
    }
    Address { bytes: v }
}

} // verus!
