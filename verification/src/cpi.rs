//! The transfers that the instruction handlers ask the runtime to make, and
//! the signer seeds with which a program-owned account authorises one.

use vstd::prelude::*;

use crate::constants::{ESCROW_SEED, VAULT_SEED, VAULT_STATE};
use crate::pubkey::{bytes_to_vec, Pubkey};

verus! {

/// The token accounts that the instructions move tokens between.
#[derive(Clone, Copy, Debug, PartialEq, Eq, Structural)]
pub enum TokenAccountRole {
    /// The maker's token account for mint A.
    MakerAtaA,
    /// The maker's token account for mint B.
    MakerAtaB,
    /// The escrow's vault, which holds the maker's deposit of mint A.
    TemporaryVault,
    /// The taker's token account for mint A.
    TakerAtaA,
    /// The taker's token account for mint B.
    TakerAtaB,
    /// The fee vault state's token account for mint B, from which the admin
    /// withdraws fees.
    FeeVault,
    /// The mint B token account at the admin address, to which taking pays
    /// its fee.
    AdminFeeAccount,
    /// The token account, in mint B, to which the admin withdraws fees.
    ReceiverAtaB,
}

/// Which of the two mints of an escrow a transfer moves.
#[derive(Clone, Copy, Debug, PartialEq, Eq, Structural)]
pub enum MintRole {
    A,
    B,
}

/// Who authorises a token transfer.
#[derive(Clone, Copy, Debug, PartialEq, Eq)]
pub enum Authority {
    /// The maker, who signed the transaction.
    Maker,
    /// The taker, who signed the transaction.
    Taker,
    /// The escrow state account, which signs with its address seeds.
    EscrowState { seed: u16, maker: Pubkey, bump: u8 },
    /// The fee vault state account, which signs with its address seeds.
    FeeVaultState { admin: Pubkey, bump: u8 },
}

/// A checked token transfer: `amount` tokens of `mint` (with `decimals`)
/// from `from` to `to`, authorised by `authority`.
#[derive(Clone, Copy, Debug, PartialEq, Eq)]
pub struct TokenTransfer {
    pub from: TokenAccountRole,
    pub to: TokenAccountRole,
    pub mint: MintRole,
    pub decimals: u8,
    pub amount: u64,
    pub authority: Authority,
}

/// A transfer of `amount` lamports from a user's vault back to the user,
/// signed by the vault with its address seeds.
#[derive(Clone, Copy, Debug, PartialEq, Eq)]
pub struct LamportTransfer {
    pub user: Pubkey,
    pub vault_bump: u8,
    pub amount: u64,
}

/// The little-endian bytes of a `u16`.
pub open spec fn u16_le(x: u16) -> Seq<u8> {
    seq![(x % 256) as u8, (x / 256) as u8]
}

/// The little-endian bytes of a `u16`.
pub fn u16_to_le_bytes(x: u16) -> (bytes: Vec<u8>)
    ensures
        bytes@ == u16_le(x),
{
    let low: u8 = (x % 256) as u8;
    let high: u8 = (x / 256) as u8;
    let mut bytes: Vec<u8> = Vec::new();
    bytes.push(low);
    bytes.push(high);
    proof {
        assert(bytes@ =~= u16_le(x));
    }
    bytes
}

/// The seeds of an escrow state's address with its bump:
/// the escrow prefix, the seed in little-endian, the maker and the bump.
pub open spec fn escrow_seeds(seed: u16, maker: Pubkey, bump: u8) -> Seq<Seq<u8>> {
    seq![ESCROW_SEED@, u16_le(seed), maker.bytes@, seq![bump]]
}

/// The seeds of the fee vault state's address with its bump:
/// the fee vault prefix, the admin and the bump.
pub open spec fn fee_vault_seeds(admin: Pubkey, bump: u8) -> Seq<Seq<u8>> {
    seq![VAULT_STATE@, admin.bytes@, seq![bump]]
}

/// The seeds of a user's lamport vault with its bump:
/// the vault prefix, the user and the bump.
pub open spec fn vault_seeds(user: Pubkey, bump: u8) -> Seq<Seq<u8>> {
    seq![VAULT_SEED@, user.bytes@, seq![bump]]
}

/// A byte vector's deep view is its view.
proof fn lemma_bytes_deep_view(v: Vec<u8>)
    ensures
        v.deep_view() == v@,
{
    assert(v.deep_view() =~= v@);
}

/// A list of byte vectors has the deep view of its elements' views.
proof fn lemma_seed_list_deep_view(seeds: Vec<Vec<u8>>, expected: Seq<Seq<u8>>)
    requires
        seeds@.len() == expected.len(),
        forall|i: int| 0 <= i < expected.len() ==> #[trigger] seeds@[i]@ == expected[i],
    ensures
        seeds.deep_view() == expected,
{
    assert forall|i: int| 0 <= i < expected.len() implies seeds.deep_view()[i] == expected[i] by {
        lemma_bytes_deep_view(seeds@[i]);
    }
    assert(seeds.deep_view() =~= expected);
}

impl Authority {
    /// The seeds the authority signs with: none for a signer of the
    /// transaction, its address seeds for a program-owned account.
    pub open spec fn seeds(self) -> Seq<Seq<u8>> {
        match self {
            Authority::Maker => seq![],
            Authority::Taker => seq![],
            Authority::EscrowState { seed, maker, bump } => escrow_seeds(seed, maker, bump),
            Authority::FeeVaultState { admin, bump } => fee_vault_seeds(admin, bump),
        }
    }

    /// The seeds the authority signs with.
    pub fn signer_seeds(&self) -> (seeds: Vec<Vec<u8>>)
        ensures
            seeds.deep_view() == self.seeds(),
    {
        let mut seeds: Vec<Vec<u8>> = Vec::new();
        match self {
            Authority::Maker => {},
            Authority::Taker => {},
            Authority::EscrowState { seed, maker, bump } => {
                seeds.push(bytes_to_vec(&ESCROW_SEED));
                seeds.push(u16_to_le_bytes(*seed));
                seeds.push(maker.to_vec());
                let mut b: Vec<u8> = Vec::new();
                b.push(*bump);
                assert(b@ =~= seq![*bump]);
                seeds.push(b);
            },
            Authority::FeeVaultState { admin, bump } => {
                seeds.push(bytes_to_vec(&VAULT_STATE));
                seeds.push(admin.to_vec());
                let mut b: Vec<u8> = Vec::new();
                b.push(*bump);
                assert(b@ =~= seq![*bump]);
                seeds.push(b);
            },
        }
        proof {
            lemma_seed_list_deep_view(seeds, self.seeds());
        }
        seeds
    }
}

impl LamportTransfer {
    /// The seeds the vault signs with.
    pub fn signer_seeds(&self) -> (seeds: Vec<Vec<u8>>)
        ensures
            seeds.deep_view() == vault_seeds(self.user, self.vault_bump),
    {
        let mut seeds: Vec<Vec<u8>> = Vec::new();
        seeds.push(bytes_to_vec(&VAULT_SEED));
        seeds.push(self.user.to_vec());
        let mut b: Vec<u8> = Vec::new();
        b.push(self.vault_bump);
        assert(b@ =~= seq![self.vault_bump]);
        seeds.push(b);
        proof {
            lemma_seed_list_deep_view(seeds, vault_seeds(self.user, self.vault_bump));
        }
        seeds
    }
}

} // verus!
