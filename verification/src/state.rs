//! The escrow's stored state, and the accounts that the instructions read.
use vstd::prelude::*;
use vstd::bytes::{spec_u16_to_le_bytes, u16_to_le_bytes};
use crate::address::Pubkey;

verus! {

/// The state of an open offer, as `make` stored it.
#[derive(Clone, Copy, Debug, PartialEq, Eq)]
pub struct Escrow {
    /// The maker of the escrow.
    pub maker: Pubkey,
    /// The mint of the token offered by the maker.
    pub mint_a: Pubkey,
    /// The mint of the token requested by the maker.
    pub mint_b: Pubkey,
    /// The amount of the token offered by the maker.
    pub amount_a: u64,
    /// The amount of the token requested by the maker.
    pub amount_b: u64,
    /// The seed used for the escrow's address.
    pub seed: u16,
    /// The bump used for the escrow's address.
    pub bump: u8,
    /// When `make` ran, as a unix timestamp: an instruction has no memory of earlier
    /// transactions, so this is how `cancel` knows the escrow's age.
    pub created_at: i64,
}

/// The first seed of every escrow address: the ASCII bytes of `escrow`.
pub open spec fn escrow_seed_prefix() -> Seq<u8> {
    seq![0x65u8, 0x73u8, 0x63u8, 0x72u8, 0x6fu8, 0x77u8]
}

/// The seeds of the escrow address of `maker` with `seed`, closed by `bump`:
/// `[b"escrow", maker, seed as little-endian bytes, [bump]]`.
pub open spec fn escrow_seeds(maker: Pubkey, seed: u16, bump: u8) -> Seq<Seq<u8>> {
    seq![escrow_seed_prefix(), maker@, spec_u16_to_le_bytes(seed), seq![bump]]
}

/// Builds `escrow_seeds(maker, seed, bump)`.
pub fn escrow_signer_seeds(maker: &Pubkey, seed: u16, bump: u8) -> (seeds: Vec<Vec<u8>>)
    ensures
        seeds.deep_view() == escrow_seeds(*maker, seed, bump),
{
    let prefix: Vec<u8> = vec![0x65u8, 0x73u8, 0x63u8, 0x72u8, 0x6fu8, 0x77u8];
    let maker_bytes = maker.to_seed();
    let seed_bytes = u16_to_le_bytes(seed);
    let bump_bytes: Vec<u8> = vec![bump];
    assert(prefix.deep_view() =~= escrow_seed_prefix());
    assert(maker_bytes.deep_view() =~= maker@);
    assert(seed_bytes.deep_view() =~= spec_u16_to_le_bytes(seed));
    assert(bump_bytes.deep_view() =~= seq![bump]);
    let seeds = vec![prefix, maker_bytes, seed_bytes, bump_bytes];
    assert(seeds.deep_view() =~= escrow_seeds(*maker, seed, bump));
    seeds
}

impl Escrow {
    /// The seeds with which the escrow's address signs for its vault.
    pub fn signer_seeds(&self) -> (seeds: Vec<Vec<u8>>)
        ensures
            seeds.deep_view() == escrow_seeds(self.maker, self.seed, self.bump),
    {
        escrow_signer_seeds(&self.maker, self.seed, self.bump)
    }
}

/// An account of this program that holds an `Escrow`.
#[derive(Clone, Copy, Debug, PartialEq, Eq)]
pub struct EscrowAccount {
    pub key: Pubkey,
    pub data: Escrow,
}

/// A mint account, as far as the instructions read it.
#[derive(Clone, Copy, Debug, PartialEq, Eq)]
pub struct MintAccount {
    pub key: Pubkey,
    pub decimals: u8,
}

/// A token account, as far as the instructions read it. Where `program_owner` is the system
/// program, nothing has been created at `key` yet, and the other fields mean nothing.
#[derive(Clone, Copy, Debug, PartialEq, Eq)]
pub struct TokenAccount {
    /// The account's address.
    pub key: Pubkey,
    /// The program that owns the account (a token program, once it exists).
    pub program_owner: Pubkey,
    /// The mint of the tokens it holds.
    pub mint: Pubkey,
    /// The authority over the tokens it holds.
    pub owner: Pubkey,
    /// How many tokens it holds.
    pub amount: u64,
}

} // verus!
