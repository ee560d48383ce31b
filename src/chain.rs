use vstd::prelude::*;

use anchor_lang::AccountDeserialize;
use anchor_lang::solana_program::program_option::COption;
use anchor_lang::solana_program::pubkey::Pubkey;

use crate::key::Key;

verus! {

#[verifier::external_type_specification]
#[verifier::external_body]
pub struct ExAnchorError(anchor_lang::error::Error);

/// The address of the runtime's system program: 32 zero bytes.
pub open spec fn system_program_address() -> Seq<u8> {
    Seq::new(32, |i: int| 0u8)
}

/// The program-derived address of `seeds` under `program_id`: the first address, searching
/// bump seeds downward from 255, that lies off the curve, if there is one and the seeds are
/// within the runtime's limits.
pub uninterp spec fn program_address_of(seeds: Seq<Seq<u8>>, program_id: Seq<u8>) -> Option<Seq<u8>>;

/// Little-endian value of `n` bytes of `d` starting at `at`.
pub open spec fn le_value(d: Seq<u8>, at: int, n: nat) -> int
    decreases n,
{
    if n == 0 {
        0
    } else {
        d[at] as int + 256 * le_value(d, at + 1, (n - 1) as nat)
    }
}

/// A four-byte optional-value tag: `0` for none, `1` for some.
pub open spec fn option_tag_valid(d: Seq<u8>, at: int) -> bool {
    &&& (d[at] == 0 || d[at] == 1)
    &&& d[at + 1] == 0
    &&& d[at + 2] == 0
    &&& d[at + 3] == 0
}

/// Whether `d` is the data of an initialized (or frozen) token account.
pub open spec fn token_account_valid(d: Seq<u8>) -> bool {
    &&& d.len() == 165
    &&& option_tag_valid(d, 72)
    &&& (d[108] == 1 || d[108] == 2)
    &&& option_tag_valid(d, 109)
    &&& option_tag_valid(d, 129)
}

pub open spec fn token_account_mint(d: Seq<u8>) -> Seq<u8> {
    d.subrange(0, 32)
}

pub open spec fn token_account_owner(d: Seq<u8>) -> Seq<u8> {
    d.subrange(32, 64)
}

pub open spec fn token_account_amount(d: Seq<u8>) -> int {
    le_value(d, 64, 8)
}

/// Whether `d` is the data of an initialized token mint.
pub open spec fn mint_valid(d: Seq<u8>) -> bool {
    &&& d.len() == 82
    &&& option_tag_valid(d, 0)
    &&& d[45] == 1
    &&& option_tag_valid(d, 46)
}

pub open spec fn mint_authority(d: Seq<u8>) -> Option<Seq<u8>> {
    if d[0] == 1 {
        Some(d.subrange(4, 36))
    } else {
        None
    }
}

/// The fields of a token account that the raffle checks.
pub struct TokenAccountState {
    pub mint: Key,
    pub owner: Key,
    pub amount: u64,
}

/// The field of a token mint that the raffle checks.
pub struct MintState {
    pub mint_authority: Option<Key>,
}

pub open spec fn key_option_view(k: Option<Key>) -> Option<Seq<u8>> {
    match k {
        Some(k) => Some(k@),
        None => None,
    }
}

/// The system program's address, `solana_program::system_program::ID`: declared as
/// "11111111111111111111111111111111" in base58, which is 32 zero bytes.
pub(crate) fn system_program_id() -> (r: Key)
    ensures
        r@ == system_program_address(),
{
    let bytes: [u8; 32] = [0u8; 32];
    let r = Key { bytes };
    assert(r@ =~= system_program_address());
    r
}

/// Relies on `Pubkey::try_find_program_address` with two seeds: the address it derives
/// depends on the seeds and the program id alone.
#[verifier::external_body]
pub(crate) fn find_program_address(first_seed: &[u8], second_seed: &[u8], program_id: &Key) -> (r:
    Option<Key>)
    ensures
        key_option_view(r) == program_address_of(seq![first_seed@, second_seed@], program_id@),
{
    let seeds: [&[u8]; 2] = [first_seed, second_seed];
    match Pubkey::try_find_program_address(&seeds, &Pubkey::new_from_array(program_id.bytes)) {
        Some((address, _bump)) => Some(Key { bytes: address.to_bytes() }),
        None => None,
    }
}

/// Relies on `TokenAccount::try_deserialize` (anchor-spl), which unpacks the token
/// program's 165-byte account layout: mint at 0, owner at 32, little-endian amount at 64,
/// optional delegate at 72, state at 108 (uninitialized accounts are refused), optional
/// native amount at 109 and optional close authority at 129.
#[verifier::external_body]
pub(crate) fn unpack_token_account(data: &[u8]) -> (r: Result<TokenAccountState, anchor_lang::error::Error>)
    ensures
        r is Ok <==> token_account_valid(data@),
        r matches Ok(a) ==> {
            &&& a.mint@ == token_account_mint(data@)
            &&& a.owner@ == token_account_owner(data@)
            &&& a.amount == token_account_amount(data@)
        },
{
    let mut buf: &[u8] = data;
    match anchor_spl::token::TokenAccount::try_deserialize(&mut buf) {
        Ok(a) => Ok(TokenAccountState {
            mint: Key { bytes: a.mint.to_bytes() },
            owner: Key { bytes: a.owner.to_bytes() },
            amount: a.amount,
        }),
        Err(e) => Err(e),
    }
}

/// Relies on `Mint::try_deserialize` (anchor-spl), which unpacks the token program's
/// 82-byte mint layout: optional mint authority at 0, initialized flag at 45 (uninitialized
/// mints are refused) and optional freeze authority at 46.
#[verifier::external_body]
pub(crate) fn unpack_mint(data: &[u8]) -> (r: Result<MintState, anchor_lang::error::Error>)
    ensures
        r is Ok <==> mint_valid(data@),
        r matches Ok(m) ==> key_option_view(m.mint_authority) == mint_authority(data@),
{
    let mut buf: &[u8] = data;
    match anchor_spl::token::Mint::try_deserialize(&mut buf) {
        Ok(m) => Ok(MintState {
            mint_authority: match m.mint_authority {
                COption::Some(k) => Some(Key { bytes: k.to_bytes() }),
                COption::None => None,
            },
        }),
        Err(e) => Err(e),
    }
}

} // verus!
