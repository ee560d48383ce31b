use vstd::prelude::*;

use crate::chain::{find_program_address, program_address_of, system_program_address, system_program_id};
use crate::key::Key;

verus! {

/// The escrow account an operation was handed, with the program it runs under.
#[derive(Clone, Copy, Debug)]
pub struct EscrowAccount {
    pub program_id: Key,
    pub key: Key,
    /// The program that owns the escrow account.
    pub owner: Key,
}

/// The bytes of the seed `"escrow"`.
pub open spec fn escrow_seed() -> Seq<u8> {
    seq![101u8, 115u8, 99u8, 114u8, 111u8, 119u8]
}

/// The escrow address of a raffle: derived from the seeds `"escrow"` and the raffle id's
/// UTF-8 bytes under the program.
pub open spec fn escrow_address_of(raffle_id: Seq<char>, program_id: Seq<u8>) -> Option<Seq<u8>> {
    program_address_of(seq![escrow_seed(), vstd::utf8::encode_utf8(raffle_id)], program_id)
}

/// An escrow account is valid for a raffle when its address is the one derived from the
/// raffle id under the program, and the system program owns it.
pub open spec fn escrow_valid(raffle_id: Seq<char>, escrow: EscrowAccount) -> bool {
    &&& escrow_address_of(raffle_id, escrow.program_id@) == Some(escrow.key@)
    &&& escrow.owner@ == system_program_address()
}

/// Checks the escrow account against the raffle id.
pub fn check_escrow(raffle_id: &String, escrow: &EscrowAccount) -> (r: bool)
    ensures
        r == escrow_valid(raffle_id@, *escrow),
{
    let seed: [u8; 6] = [101u8, 115u8, 99u8, 114u8, 111u8, 119u8];
    let id_bytes = raffle_id.as_str().as_bytes();
    proof {
        assert(seed@ =~= escrow_seed());
    }
    match find_program_address(vstd::array::array_as_slice(&seed), id_bytes, &escrow.program_id) {
        Some(expected) => {
            if !expected.same(&escrow.key) {
                return false;
            }
        },
        None => {
            return false;
        },
    }
    let system = system_program_id();
    escrow.owner.same(&system)
}

/// Accounts of raffle creation.
#[derive(Clone, Copy, Debug)]
pub struct InitializeRaffle {
    pub seller: Key,
    pub escrow: EscrowAccount,
    pub property_nft_mint: Key,
    pub property_token_mint: Key,
}

/// Accounts of a ticket purchase.
#[derive(Clone, Debug)]
pub struct PurchaseTicket {
    pub buyer: Key,
    pub buyer_token_account: Key,
    pub buyer_token_data: Vec<u8>,
    pub escrow: EscrowAccount,
}

/// Accounts of a change of the fractional-ownership policy.
#[derive(Clone, Copy, Debug)]
pub struct SetFractionalOption {
    pub seller: Key,
}

/// Accounts of a randomness request.
#[derive(Clone, Copy, Debug)]
pub struct RequestRandomness {
    pub escrow: EscrowAccount,
}

/// Accounts of the direct closure of an undersold raffle.
#[derive(Clone, Copy, Debug)]
pub struct CloseRaffle {
    pub escrow: EscrowAccount,
}

/// Accounts of the settlement of one ticket holder.
#[derive(Clone, Debug)]
pub struct RefundOrDistribute {
    pub escrow: EscrowAccount,
    pub seller: Key,
    pub holder_account: Key,
    pub holder_account_owner: Key,
    pub holder_token_account: Key,
    pub holder_token_data: Vec<u8>,
    pub property_token_mint_data: Vec<u8>,
}

/// Accounts of the payout of a full sale.
#[derive(Clone, Debug)]
pub struct ProcessPayoutFullSale {
    pub escrow: EscrowAccount,
    pub escrow_lamports: u64,
    pub seller: Key,
    pub charity_account_owner: Key,
    pub property_nft_account_data: Vec<u8>,
    pub winner_nft_account_data: Vec<u8>,
}

/// Accounts of the payout of a partial sale without fractional ownership.
#[derive(Clone, Copy, Debug)]
pub struct ProcessPayoutFractionalNoMint {
    pub escrow: EscrowAccount,
    pub charity_account_owner: Key,
}

/// Accounts of the payout of a partial sale with fractional ownership.
#[derive(Clone, Debug)]
pub struct ProcessPayoutFractionalWithMint {
    pub escrow: EscrowAccount,
    pub seller: Key,
    pub seller_token_data: Vec<u8>,
    pub charity_account_owner: Key,
    pub property_token_mint_data: Vec<u8>,
}

} // verus!
