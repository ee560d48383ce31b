use vstd::prelude::*;

use crate::key::Key;

verus! {

/// Notice of a ticket purchase.
#[derive(Clone, Debug)]
pub struct TicketPurchased {
    pub raffle_id: String,
    pub buyer: Key,
    pub num_tickets: u64,
    pub payment_method: u8,
}

/// Notice that a raffle closed, with its winner on a full sale.
#[derive(Clone, Debug)]
pub struct RaffleClosed {
    pub raffle_id: String,
    pub is_full_sale: bool,
    pub winner: Option<Key>,
}

/// Notice of a raffle's payout.
#[derive(Clone, Debug)]
pub struct PayoutProcessed {
    pub raffle_id: String,
    pub seller_payout: u64,
    pub platform_revenue: u64,
    pub charity_contribution: u64,
}

/// Notice that one ticket holder was refunded or received fractional units.
#[derive(Clone, Debug)]
pub struct TicketHolderProcessed {
    pub raffle_id: String,
    pub buyer: Key,
    pub refunded_amount: Option<u64>,
    pub tokens_minted: Option<u64>,
}

} // verus!
