//! Account addresses, and the derivations of program and token-account addresses.
use vstd::prelude::*;
use vstd::array::array_as_slice;
use vstd::slice::slice_to_vec;
use anchor_lang::solana_program::pubkey::PubkeyError;

verus! {

broadcast use vstd::array::group_array_axioms;

/// A 32-byte account address.
#[derive(Clone, Copy, Debug, PartialEq, Eq)]
pub struct Pubkey {
    pub bytes: [u8; 32],
}

impl View for Pubkey {
    type V = Seq<u8>;

    open spec fn view(&self) -> Seq<u8> {
        self.bytes@
    }
}

impl Pubkey {
    /// The address with the given bytes.
    pub fn new_from_array(bytes: [u8; 32]) -> (key: Pubkey)
        ensures
            key.bytes == bytes,
    {
        Pubkey { bytes }
    }

    /// Whether this is the address of the system program (all bytes zero). An account
    /// that the system program owns holds no data yet.
    pub fn is_system_program(&self) -> (r: bool)
        ensures
            r == is_system_program_id(*self),
    {
        let mut i: usize = 0;
        while i < 32
            invariant
                0 <= i <= 32,
                forall|j: int| 0 <= j < i ==> self.bytes@[j] == 0,
            decreases 32 - i,
        {
            if self.bytes[i] != 0 {
                assert(self@[i as int] != 0);
                return false;
            }
            i = i + 1;
        }
        assert(self@ =~= Seq::new(32, |j: int| 0u8));
        true
    }

    /// Whether two addresses are the same.
    pub fn same(&self, other: &Pubkey) -> (r: bool)
        ensures
            r == (*self == *other),
    {
        let mut i: usize = 0;
        while i < 32
            invariant
                0 <= i <= 32,
                forall|j: int| 0 <= j < i ==> self.bytes@[j] == other.bytes@[j],
            decreases 32 - i,
        {
            if self.bytes[i] != other.bytes[i] {
                assert(self.bytes@[i as int] != other.bytes@[i as int]);
                return false;
            }
            i = i + 1;
        }
        assert(self.bytes =~= other.bytes);
        true
    }

    /// The address's bytes, as a seed.
    pub fn to_seed(&self) -> (v: Vec<u8>)
        ensures
            v@ == self@,
    {
        slice_to_vec(array_as_slice(&self.bytes))
    }
}

/// Whether no address occurs twice in `keys`.
pub open spec fn keys_distinct(keys: Seq<Pubkey>) -> bool {
    forall|i: int, j: int| 0 <= i < j < keys.len() ==> keys[i] != keys[j]
}

/// Whether no address occurs twice in `keys`.
pub fn all_distinct(keys: &Vec<Pubkey>) -> (r: bool)
    ensures
        r == keys_distinct(keys@),
{
    let n = keys.len();
    let mut j: usize = 1;
    while j < n
        invariant
            n == keys@.len(),
            1 <= j <= n || n == 0,
            forall|a: int, b: int| 0 <= a < b < j && b < n ==> keys@[a] != keys@[b],
        decreases n - j,
    {
        let mut i: usize = 0;
        while i < j
            invariant
                n == keys@.len(),
                1 <= j < n,
                0 <= i <= j,
                forall|a: int, b: int| 0 <= a < b < j ==> keys@[a] != keys@[b],
                forall|a: int| 0 <= a < i ==> keys@[a] != keys@[j as int],
            decreases j - i,
        {
            if keys[i].same(&keys[j]) {
                assert(keys@[i as int] == keys@[j as int]);
                return false;
            }
            i = i + 1;
        }
        j = j + 1;
    }
    true
}

/// Whether `key` is the address of the system program: 32 zero bytes.
pub open spec fn is_system_program_id(key: Pubkey) -> bool {
    key@ == Seq::new(32, |j: int| 0u8)
}

#[verifier::external_type_specification]
#[verifier::external_body]
pub struct ExPubkeyError(PubkeyError);

/// The program address that `Pubkey::create_program_address` derives from `seeds` and
/// `program_id`, or `None` where it refuses them.
pub uninterp spec fn program_address(seeds: Seq<Seq<u8>>, program_id: Pubkey) -> Option<Pubkey>;

/// What `Pubkey::try_find_program_address` finds for `seeds` and `program_id`: the first
/// program address, trying the bump seeds from 255 down to 1, with its bump; `None` where
/// none is found.
pub uninterp spec fn found_program_address(seeds: Seq<Seq<u8>>, program_id: Pubkey) -> Option<(Pubkey, u8)>;

/// Calls `Pubkey::create_program_address` (solana-address, through anchor-lang): the hash of
/// the seeds, the program id and a marker, refused where it lies on the ed25519 curve.
/// Claimed: the result is the named `program_address` of the seeds and program id, an error
/// exactly where that name is `None`, and an error where there are more than 16 seeds or a
/// seed longer than 32 bytes, as the source checks first.
#[verifier::external_body]
pub(crate) fn create_program_address(seeds: &Vec<Vec<u8>>, program_id: &Pubkey) -> (res: Result<Pubkey, PubkeyError>)
    ensures
        res is Ok <==> program_address(seeds.deep_view(), *program_id) is Some,
        res matches Ok(key) ==> program_address(seeds.deep_view(), *program_id) == Some(key),
        (seeds.len() > 16 || exists|i: int| 0 <= i < seeds.len() && #[trigger] seeds@[i].len() > 32)
            ==> res is Err,
{
    let slices: Vec<&[u8]> = seeds.iter().map(|s| s.as_slice()).collect();
    let id = anchor_lang::prelude::Pubkey::new_from_array(program_id.bytes);
    anchor_lang::prelude::Pubkey::create_program_address(&slices, &id)
        .map(|key| Pubkey { bytes: key.to_bytes() })
}

/// Calls `Pubkey::try_find_program_address` (solana-address, through anchor-lang), which
/// tries the bump seeds from 255 down to 1, appended as a last one-byte seed, and returns the
/// first program address that `create_program_address` gives, with its bump. Claimed: the
/// result is the named `found_program_address` of the seeds and program id; a found address
/// is the `program_address` of the seeds with its bump appended; nothing is found for 16 or
/// more seeds, as the source checks first.
#[verifier::external_body]
pub(crate) fn try_find_program_address(seeds: &Vec<Vec<u8>>, program_id: &Pubkey) -> (res: Option<(Pubkey, u8)>)
    ensures
        res == found_program_address(seeds.deep_view(), *program_id),
        res matches Some((key, bump)) ==> program_address(
            seeds.deep_view().push(seq![bump]),
            *program_id,
        ) == Some(key),
        seeds.len() >= 16 ==> res is None,
{
    let slices: Vec<&[u8]> = seeds.iter().map(|s| s.as_slice()).collect();
    let id = anchor_lang::prelude::Pubkey::new_from_array(program_id.bytes);
    anchor_lang::prelude::Pubkey::try_find_program_address(&slices, &id)
        .map(|(key, bump)| (Pubkey { bytes: key.to_bytes() }, bump))
}

/// The address of the SPL Token program, `TokenkegQfeZyiNwAJbNbGKPFXCWuBvf9Ss623VQ5DA`.
pub open spec fn spl_token_program_id() -> Pubkey {
    Pubkey {
        bytes: [
            6u8, 221u8, 246u8, 225u8, 215u8, 101u8, 161u8, 147u8, 217u8, 203u8, 225u8, 70u8,
            206u8, 235u8, 121u8, 172u8, 28u8, 180u8, 133u8, 237u8, 95u8, 91u8, 55u8, 145u8,
            58u8, 140u8, 245u8, 133u8, 126u8, 255u8, 0u8, 169u8,
        ],
    }
}

/// The address of the associated token program, `ATokenGPvbdGVxr1b2hvZbsiqW5xWH25efTNsLJA8knL`.
pub open spec fn associated_token_program_id() -> Pubkey {
    Pubkey {
        bytes: [
            140u8, 151u8, 37u8, 143u8, 78u8, 36u8, 137u8, 241u8, 187u8, 61u8, 16u8, 41u8, 20u8,
            142u8, 13u8, 131u8, 11u8, 90u8, 19u8, 153u8, 218u8, 255u8, 16u8, 132u8, 4u8, 142u8,
            123u8, 216u8, 219u8, 233u8, 248u8, 89u8,
        ],
    }
}

impl Pubkey {
    /// The address of the SPL Token program.
    pub fn spl_token_program() -> (key: Pubkey)
        ensures
            key == spl_token_program_id(),
    {
        Pubkey {
            bytes: [
                6u8, 221u8, 246u8, 225u8, 215u8, 101u8, 161u8, 147u8, 217u8, 203u8, 225u8, 70u8,
                206u8, 235u8, 121u8, 172u8, 28u8, 180u8, 133u8, 237u8, 95u8, 91u8, 55u8, 145u8,
                58u8, 140u8, 245u8, 133u8, 126u8, 255u8, 0u8, 169u8,
            ],
        }
    }

    /// The address of the associated token program.
    pub fn associated_token_program() -> (key: Pubkey)
        ensures
            key == associated_token_program_id(),
    {
        Pubkey {
            bytes: [
                140u8, 151u8, 37u8, 143u8, 78u8, 36u8, 137u8, 241u8, 187u8, 61u8, 16u8, 41u8,
                20u8, 142u8, 13u8, 131u8, 11u8, 90u8, 19u8, 153u8, 218u8, 255u8, 16u8, 132u8, 4u8,
                142u8, 123u8, 216u8, 219u8, 233u8, 248u8, 89u8,
            ],
        }
    }
}

/// The seeds of the associated token account of `wallet` for `mint` under `token_program`:
/// `[wallet, token_program, mint]`.
pub open spec fn associated_token_seeds(wallet: Pubkey, mint: Pubkey, token_program: Pubkey) -> Seq<Seq<u8>> {
    seq![wallet@, token_program@, mint@]
}

/// The address of the associated token account of `wallet` for `mint` under `token_program`:
/// the program address found for its seeds under the associated token program, or `None`
/// where no bump seed gives one.
pub open spec fn associated_token_address(wallet: Pubkey, mint: Pubkey, token_program: Pubkey) -> Option<Pubkey> {
    match found_program_address(
        associated_token_seeds(wallet, mint, token_program),
        associated_token_program_id(),
    ) {
        Some((key, _)) => Some(key),
        None => None,
    }
}

/// Derives the associated token account address of `wallet` for `mint` under
/// `token_program`, as the associated token account program's address derivation does;
/// `None` in the event, of probability about 2^-255, that no bump seed gives an address off
/// the curve, where that derivation panics.
pub fn find_associated_token_address(wallet: &Pubkey, mint: &Pubkey, token_program: &Pubkey) -> (r: Option<Pubkey>)
    ensures
        r == associated_token_address(*wallet, *mint, *token_program),
{
    let seeds = vec![wallet.to_seed(), token_program.to_seed(), mint.to_seed()];
    assert(seeds.deep_view() =~= associated_token_seeds(*wallet, *mint, *token_program)) by {
        assert(seeds@[0].deep_view() =~= wallet@);
        assert(seeds@[1].deep_view() =~= token_program@);
        assert(seeds@[2].deep_view() =~= mint@);
    }
    match try_find_program_address(&seeds, &Pubkey::associated_token_program()) {
        Some((key, _)) => Some(key),
        None => None,
    }
}

} // verus!
