use vstd::prelude::*;

use crate::accounts::{
    ProcessPayoutFractionalNoMint,
    ProcessPayoutFractionalWithMint,
    ProcessPayoutFullSale,
    RefundOrDistribute,
    check_escrow,
    escrow_valid,
};
use crate::chain::{
    mint_authority,
    mint_valid,
    system_program_address,
    system_program_id,
    token_account_amount,
    token_account_mint,
    token_account_owner,
    token_account_valid,
    unpack_mint,
    unpack_token_account,
};
use crate::error::RaffleError;
use crate::events::{PayoutProcessed, TicketHolderProcessed};
use crate::key::Key;
use crate::ledger::{
    PAYMENT_ON_CHAIN,
    TicketHolder,
    find_holder,
    has_holder,
    holder_index,
    lemma_ticket_sum_nonneg,
    lemma_ticket_sum_remove,
    ticket_sum,
};
use crate::payout::{
    TOTAL_FRACTIONAL_UNITS,
    charity_share,
    fractional_units,
    lemma_units_within_supply,
    platform_share,
    seller_share,
    split_proceeds,
    total_proceeds,
    lemma_units_additive,
    units_for,
};
use crate::raffle::{Raffle, same_terms};

verus! {

/// Why settling `buyer` is refused, checked in this order; `None` when it goes through.
pub open spec fn settle_error(raffle: Raffle, ctx: RefundOrDistribute, buyer: Key) -> Option<
    RaffleError,
> {
    let h = raffle.ticket_holders@;
    let token = ctx.holder_token_data@;
    let mint = ctx.property_token_mint_data@;
    let holder = h[holder_index(h, buyer)];
    if !raffle.is_completed {
        Some(RaffleError::RaffleNotClosed)
    } else if raffle.is_full_sale() {
        Some(RaffleError::UseFulfillRandomness)
    } else if !escrow_valid(raffle.raffle_id@, ctx.escrow) {
        Some(RaffleError::InvalidEscrowAccount)
    } else if ctx.holder_account_owner@ != system_program_address() {
        Some(RaffleError::InvalidHolderAccount)
    } else if !token_account_valid(token) || (raffle.allow_fractional && !mint_valid(mint)) {
        Some(RaffleError::InvalidAccountData)
    } else if token_account_mint(token) != raffle.property_token_mint@ {
        Some(RaffleError::InvalidTokenAccountMint)
    } else if token_account_owner(token) != ctx.holder_account@ {
        Some(RaffleError::InvalidTokenAccountOwner)
    } else if raffle.allow_fractional && mint_authority(mint) != Some(ctx.seller@) {
        Some(RaffleError::InvalidMintAuthority)
    } else if !has_holder(h, buyer) {
        Some(RaffleError::NoTicketHolders)
    } else if holder.buyer != ctx.holder_account {
        Some(RaffleError::InvalidHolderAccount)
    } else if holder.token_account != ctx.holder_token_account {
        Some(RaffleError::InvalidHolderTokenAccount)
    } else if raffle.allow_fractional && units_for(
        holder.num_tickets as int,
        raffle.total_tickets as int,
    ) > u64::MAX {
        Some(RaffleError::MathOverflow)
    } else if !raffle.allow_fractional && holder.num_tickets * raffle.ticket_price_sol > u64::MAX {
        Some(RaffleError::MathOverflow)
    } else {
        None
    }
}

/// The raffle after `buyer`'s record is settled: the record leaves the queue, nothing else
/// changes.
pub open spec fn settled(old_raffle: Raffle, new_raffle: Raffle, buyer: Key) -> bool {
    let h = old_raffle.ticket_holders@;
    &&& same_terms(new_raffle, old_raffle)
    &&& new_raffle.tickets_sold == old_raffle.tickets_sold
    &&& new_raffle.ticket_holders@ == h.remove(holder_index(h, buyer))
    &&& new_raffle.winner == old_raffle.winner
    &&& new_raffle.is_completed == old_raffle.is_completed
    &&& new_raffle.allow_fractional == old_raffle.allow_fractional
    &&& new_raffle.random_value == old_raffle.random_value
    &&& new_raffle.payout_processed == old_raffle.payout_processed
}

/// What settling one holder asks of the caller: with fractional ownership, mint
/// `event.tokens_minted` units to the holder's token account; otherwise move
/// `escrow_refund` (when the holder paid on chain) from escrow back to the holder.
#[derive(Clone, Debug)]
pub struct Settlement {
    pub holder: TicketHolder,
    pub escrow_refund: Option<u64>,
    pub event: TicketHolderProcessed,
}

/// Settles one holder of a closed partial sale: removes its record and, depending on the
/// raffle's policy, mints its share of fractional units or refunds its payment.
pub fn refund_or_distribute(raffle: &mut Raffle, ctx: &RefundOrDistribute, buyer: Key) -> (r:
    Result<Settlement, RaffleError>)
    requires
        old(raffle).wf(),
    ensures
        final(raffle).wf(),
        r is Err <==> settle_error(*old(raffle), *ctx, buyer) is Some,
        r matches Err(e) ==> {
            &&& settle_error(*old(raffle), *ctx, buyer) == Some(e)
            &&& *final(raffle) == *old(raffle)
        },
        r matches Ok(s) ==> {
            let h = old(raffle).ticket_holders@;
            let holder = h[holder_index(h, buyer)];
            &&& settled(*old(raffle), *final(raffle), buyer)
            &&& s.holder == holder
            &&& final(raffle).settled_tickets() == old(raffle).settled_tickets()
                + holder.num_tickets
            &&& units_minted(*final(raffle)) == units_minted(*old(raffle)) + match s.event.tokens_minted {
                Some(units) => units as int,
                None => 0,
            }
            &&& s.event.raffle_id@ == old(raffle).raffle_id@
            &&& s.event.buyer == buyer
            &&& s.event.tokens_minted == (if old(raffle).allow_fractional {
                Some(units_for(holder.num_tickets as int, old(raffle).total_tickets as int) as u64)
            } else {
                None
            })
            &&& s.event.refunded_amount == (if old(raffle).allow_fractional {
                None
            } else {
                Some((holder.num_tickets * old(raffle).ticket_price_sol) as u64)
            })
            &&& s.escrow_refund == (if holder.payment_method == PAYMENT_ON_CHAIN {
                s.event.refunded_amount
            } else {
                None
            })
        },
{
    if !raffle.is_completed {
        return Err(RaffleError::RaffleNotClosed);
    }
    if raffle.tickets_sold == raffle.total_tickets {
        return Err(RaffleError::UseFulfillRandomness);
    }
    if !check_escrow(&raffle.raffle_id, &ctx.escrow) {
        return Err(RaffleError::InvalidEscrowAccount);
    }
    let system = system_program_id();
    if !ctx.holder_account_owner.same(&system) {
        return Err(RaffleError::InvalidHolderAccount);
    }
    let token = match unpack_token_account(ctx.holder_token_data.as_slice()) {
        Ok(t) => t,
        Err(_) => {
            return Err(RaffleError::InvalidAccountData);
        },
    };
    let mut authority: Option<Key> = None;
    if raffle.allow_fractional {
        match unpack_mint(ctx.property_token_mint_data.as_slice()) {
            Ok(m) => {
                authority = m.mint_authority;
            },
            Err(_) => {
                return Err(RaffleError::InvalidAccountData);
            },
        }
    }
    if !token.mint.same(&raffle.property_token_mint) {
        return Err(RaffleError::InvalidTokenAccountMint);
    }
    if !token.owner.same(&ctx.holder_account) {
        return Err(RaffleError::InvalidTokenAccountOwner);
    }
    if raffle.allow_fractional {
        let authorized = match authority {
            Some(a) => a.same(&ctx.seller),
            None => false,
        };
        if !authorized {
            return Err(RaffleError::InvalidMintAuthority);
        }
    }
    let index = match find_holder(&raffle.ticket_holders, &buyer) {
        Some(i) => i,
        None => {
            return Err(RaffleError::NoTicketHolders);
        },
    };
    let holder = raffle.ticket_holders[index];
    if !holder.buyer.same(&ctx.holder_account) {
        return Err(RaffleError::InvalidHolderAccount);
    }
    if !holder.token_account.same(&ctx.holder_token_account) {
        return Err(RaffleError::InvalidHolderTokenAccount);
    }
    let mut refunded_amount: Option<u64> = None;
    let mut tokens_minted: Option<u64> = None;
    if raffle.allow_fractional {
        match fractional_units(holder.num_tickets, raffle.total_tickets) {
            Some(units) => {
                tokens_minted = Some(units);
            },
            None => {
                return Err(RaffleError::MathOverflow);
            },
        }
    } else {
        match holder.num_tickets.checked_mul(raffle.ticket_price_sol) {
            Some(amount) => {
                refunded_amount = Some(amount);
            },
            None => {
                return Err(RaffleError::MathOverflow);
            },
        }
    }
    let ghost h = raffle.ticket_holders@;
    let removed = raffle.ticket_holders.remove(index);
    proof {
        lemma_ticket_sum_remove(h, index as int);
        lemma_ticket_sum_nonneg(raffle.ticket_holders@);
        lemma_ticket_sum_nonneg(h);
        lemma_units_additive(
            (raffle.tickets_sold - ticket_sum(h)) as nat,
            removed.num_tickets as nat,
            raffle.total_tickets as nat,
        );
        assert forall|a: int, b: int|
            0 <= a < raffle.ticket_holders@.len() && 0 <= b < raffle.ticket_holders@.len() && a
                != b implies #[trigger] raffle.ticket_holders@[a].buyer
            != #[trigger] raffle.ticket_holders@[b].buyer by {
            let a0 = if a < index { a } else { a + 1 };
            let b0 = if b < index { b } else { b + 1 };
            assert(h[a0].buyer != h[b0].buyer);
        }
    }
    let escrow_refund = if removed.payment_method == PAYMENT_ON_CHAIN {
        refunded_amount
    } else {
        None
    };
    Ok(
        Settlement {
            holder: removed,
            escrow_refund,
            event: TicketHolderProcessed {
                raffle_id: raffle.raffle_id.clone(),
                buyer,
                refunded_amount,
                tokens_minted,
            },
        },
    )
}

/// Settlement is single-use per holder: once `buyer` has been settled, settling that buyer
/// again is refused.
pub proof fn lemma_settle_once(
    before: Raffle,
    after: Raffle,
    ctx: RefundOrDistribute,
    again: RefundOrDistribute,
    buyer: Key,
)
    requires
        before.wf(),
        settle_error(before, ctx, buyer) is None,
        settled(before, after, buyer),
    ensures
        !has_holder(after.ticket_holders@, buyer),
        settle_error(after, again, buyer) is Some,
{
    let h = before.ticket_holders@;
    let i = holder_index(h, buyer);
    let h2 = after.ticket_holders@;
    assert(h[i].buyer == buyer);
    if has_holder(h2, buyer) {
        let j = choose|j: int| 0 <= j < h2.len() && #[trigger] h2[j].buyer == buyer;
        let j0 = if j < i { j } else { j + 1 };
        assert(h[j0].buyer == buyer);
        assert(h[j0].buyer != h[i].buyer);
    }
}

/// Fractional units minted so far in a raffle: a partial sale with fractional ownership
/// mints each settled holder's share, and the seller's share of the unsold tickets once
/// its payout has run. No other path mints.
pub open spec fn units_minted(raffle: Raffle) -> int {
    let t = raffle.total_tickets as int;
    if raffle.allow_fractional && raffle.is_completed && !raffle.is_full_sale() {
        units_for(raffle.settled_tickets(), t) + if raffle.payout_processed {
            units_for(t - raffle.tickets_sold, t)
        } else {
            0
        }
    } else {
        0
    }
}

/// Over a raffle's whole lifecycle, fractional minting stays within the fixed supply: the
/// units already minted (to settled holders, and to the seller once paid out), the units
/// still owed to the remaining holders and the seller's share not yet minted together never
/// exceed `TOTAL_FRACTIONAL_UNITS`. Settlement and the fractional payout each raise
/// `units_minted` by exactly what they mint.
pub proof fn lemma_fractional_minting_bounded(raffle: Raffle)
    requires
        raffle.wf(),
    ensures
        units_minted(raffle) <= TOTAL_FRACTIONAL_UNITS,
        units_minted(raffle) + units_for(
            ticket_sum(raffle.ticket_holders@),
            raffle.total_tickets as int,
        ) + (if raffle.payout_processed {
            0
        } else {
            units_for(raffle.total_tickets - raffle.tickets_sold, raffle.total_tickets as int)
        }) <= TOTAL_FRACTIONAL_UNITS,
{
    let t = raffle.total_tickets as int;
    let held = ticket_sum(raffle.ticket_holders@);
    let settled = raffle.settled_tickets();
    let unsold = t - raffle.tickets_sold;
    lemma_ticket_sum_nonneg(raffle.ticket_holders@);
    lemma_units_additive(settled as nat, held as nat, t as nat);
    lemma_units_within_supply((settled + held) as nat, unsold as nat, t as nat);
    lemma_units_additive(0, held as nat, t as nat);
    lemma_units_additive(0, unsold as nat, t as nat);
    lemma_units_additive(0, settled as nat, t as nat);
}

/// Whether the proceeds of a raffle and their split fit in 64 bits.
pub open spec fn payout_fits(raffle: Raffle) -> bool {
    let proceeds = raffle.ticket_price_sol * raffle.tickets_sold;
    &&& proceeds <= u64::MAX
    &&& proceeds * 9 <= u64::MAX
}

/// The payout notice carries the split of the raffle's proceeds.
pub open spec fn payout_matches(raffle: Raffle, event: PayoutProcessed) -> bool {
    let proceeds = raffle.ticket_price_sol * raffle.tickets_sold;
    &&& event.raffle_id@ == raffle.raffle_id@
    &&& event.seller_payout == seller_share(proceeds)
    &&& event.platform_revenue == platform_share(proceeds)
    &&& event.charity_contribution == charity_share(proceeds)
}

/// Splits the raffle's proceeds into its payout notice.
fn payout_of(raffle: &Raffle) -> (r: Result<PayoutProcessed, RaffleError>)
    ensures
        r is Ok <==> payout_fits(*raffle),
        r matches Err(e) ==> e == RaffleError::MathOverflow,
        r matches Ok(event) ==> payout_matches(*raffle, event),
{
    let proceeds = match total_proceeds(raffle.ticket_price_sol, raffle.tickets_sold) {
        Some(p) => p,
        None => {
            return Err(RaffleError::MathOverflow);
        },
    };
    match split_proceeds(proceeds) {
        Some(split) => Ok(
            PayoutProcessed {
                raffle_id: raffle.raffle_id.clone(),
                seller_payout: split.seller_payout,
                platform_revenue: split.platform_revenue,
                charity_contribution: split.charity_contribution,
            },
        ),
        None => Err(RaffleError::MathOverflow),
    }
}

/// The raffle after its terminal payout: only the payout is recorded.
pub open spec fn paid_out(old_raffle: Raffle, new_raffle: Raffle) -> bool {
    new_raffle == (Raffle { payout_processed: true, ..old_raffle })
}

/// Why the payout of a full sale is refused, checked in this order; `None` when it goes
/// through.
pub open spec fn full_sale_payout_error(
    raffle: Raffle,
    ctx: ProcessPayoutFullSale,
    property_transfer_confirmed: bool,
) -> Option<RaffleError> {
    let nft = ctx.property_nft_account_data@;
    let winner_nft = ctx.winner_nft_account_data@;
    if !raffle.is_completed {
        Some(RaffleError::RaffleNotClosed)
    } else if !raffle.is_full_sale() {
        Some(RaffleError::NotFullSale)
    } else if raffle.payout_processed {
        Some(RaffleError::PayoutAlreadyProcessed)
    } else if !escrow_valid(raffle.raffle_id@, ctx.escrow) || ctx.escrow_lamports == 0 {
        Some(RaffleError::InvalidEscrowAccount)
    } else if ctx.charity_account_owner@ != system_program_address() {
        Some(RaffleError::InvalidCharityAccount)
    } else if !token_account_valid(nft) || !token_account_valid(winner_nft) {
        Some(RaffleError::InvalidAccountData)
    } else if token_account_owner(nft) != ctx.seller@ {
        Some(RaffleError::InvalidTokenAccountOwner)
    } else if token_account_mint(nft) != raffle.property_nft_mint@ {
        Some(RaffleError::InvalidTokenAccountMint)
    } else if token_account_amount(nft) != 1 {
        Some(RaffleError::InvalidTokenAccountAmount)
    } else if token_account_mint(winner_nft) != raffle.property_nft_mint@ {
        Some(RaffleError::InvalidTokenAccountMint)
    } else if raffle.winner matches Some(w) && token_account_owner(winner_nft) != w@ {
        Some(RaffleError::InvalidTokenAccountOwner)
    } else if !payout_fits(raffle) {
        Some(RaffleError::MathOverflow)
    } else if raffle.winner is None {
        Some(RaffleError::NoWinner)
    } else if !property_transfer_confirmed {
        Some(RaffleError::PropertyTransferNotConfirmed)
    } else {
        None
    }
}

/// Checks and records the payout of a completed full sale. On success the caller moves
/// the seller's payout and the charity's contribution out of escrow, then the property
/// token from the seller to the winner's token account.
pub fn process_payout_full_sale(
    raffle: &mut Raffle,
    ctx: &ProcessPayoutFullSale,
    property_transfer_confirmed: bool,
) -> (r: Result<PayoutProcessed, RaffleError>)
    requires
        old(raffle).wf(),
    ensures
        final(raffle).wf(),
        r is Err <==> full_sale_payout_error(*old(raffle), *ctx, property_transfer_confirmed)
            is Some,
        r matches Err(e) ==> {
            &&& full_sale_payout_error(*old(raffle), *ctx, property_transfer_confirmed) == Some(e)
            &&& *final(raffle) == *old(raffle)
        },
        old(raffle).winner is None || !property_transfer_confirmed ==> r is Err,
        r matches Ok(event) ==> {
            &&& payout_matches(*old(raffle), event)
            &&& paid_out(*old(raffle), *final(raffle))
        },
{
    if !raffle.is_completed {
        return Err(RaffleError::RaffleNotClosed);
    }
    if raffle.tickets_sold != raffle.total_tickets {
        return Err(RaffleError::NotFullSale);
    }
    if raffle.payout_processed {
        return Err(RaffleError::PayoutAlreadyProcessed);
    }
    if !check_escrow(&raffle.raffle_id, &ctx.escrow) || ctx.escrow_lamports == 0 {
        return Err(RaffleError::InvalidEscrowAccount);
    }
    let system = system_program_id();
    if !ctx.charity_account_owner.same(&system) {
        return Err(RaffleError::InvalidCharityAccount);
    }
    let nft = unpack_token_account(ctx.property_nft_account_data.as_slice());
    let winner_nft = unpack_token_account(ctx.winner_nft_account_data.as_slice());
    let (nft, winner_nft) = match (nft, winner_nft) {
        (Ok(a), Ok(b)) => (a, b),
        _ => {
            return Err(RaffleError::InvalidAccountData);
        },
    };
    if !nft.owner.same(&ctx.seller) {
        return Err(RaffleError::InvalidTokenAccountOwner);
    }
    if !nft.mint.same(&raffle.property_nft_mint) {
        return Err(RaffleError::InvalidTokenAccountMint);
    }
    if nft.amount != 1 {
        return Err(RaffleError::InvalidTokenAccountAmount);
    }
    if !winner_nft.mint.same(&raffle.property_nft_mint) {
        return Err(RaffleError::InvalidTokenAccountMint);
    }
    if let Some(winner) = raffle.winner {
        if !winner_nft.owner.same(&winner) {
            return Err(RaffleError::InvalidTokenAccountOwner);
        }
    }
    let event = payout_of(raffle)?;
    if raffle.winner.is_none() {
        return Err(RaffleError::NoWinner);
    }
    if !property_transfer_confirmed {
        return Err(RaffleError::PropertyTransferNotConfirmed);
    }
    raffle.payout_processed = true;
    Ok(event)
}

/// Why the payout of a partial sale without fractional ownership is refused; `None` when
/// it goes through.
pub open spec fn no_mint_payout_error(raffle: Raffle, ctx: ProcessPayoutFractionalNoMint) -> Option<
    RaffleError,
> {
    if !raffle.is_completed {
        Some(RaffleError::RaffleNotClosed)
    } else if raffle.is_full_sale() {
        Some(RaffleError::FullSale)
    } else if raffle.payout_processed {
        Some(RaffleError::PayoutAlreadyProcessed)
    } else if raffle.ticket_holders@.len() > 0 {
        Some(RaffleError::TicketHoldersNotProcessed)
    } else if raffle.allow_fractional {
        Some(RaffleError::FractionalOwnershipAllowed)
    } else if !escrow_valid(raffle.raffle_id@, ctx.escrow) {
        Some(RaffleError::InvalidEscrowAccount)
    } else if ctx.charity_account_owner@ != system_program_address() {
        Some(RaffleError::InvalidCharityAccount)
    } else if !payout_fits(raffle) {
        Some(RaffleError::MathOverflow)
    } else {
        None
    }
}

/// Checks and records the payout of a closed partial sale whose holders were all
/// refunded. On success the caller moves the seller's payout and the charity's
/// contribution out of escrow.
pub fn process_payout_fractional_no_mint(
    raffle: &mut Raffle,
    ctx: &ProcessPayoutFractionalNoMint,
) -> (r: Result<PayoutProcessed, RaffleError>)
    requires
        old(raffle).wf(),
    ensures
        final(raffle).wf(),
        r is Err <==> no_mint_payout_error(*old(raffle), *ctx) is Some,
        r matches Err(e) ==> {
            &&& no_mint_payout_error(*old(raffle), *ctx) == Some(e)
            &&& *final(raffle) == *old(raffle)
        },
        old(raffle).ticket_holders@.len() > 0 ==> r is Err,
        r matches Ok(event) ==> {
            &&& payout_matches(*old(raffle), event)
            &&& paid_out(*old(raffle), *final(raffle))
        },
{
    if !raffle.is_completed {
        return Err(RaffleError::RaffleNotClosed);
    }
    if raffle.tickets_sold == raffle.total_tickets {
        return Err(RaffleError::FullSale);
    }
    if raffle.payout_processed {
        return Err(RaffleError::PayoutAlreadyProcessed);
    }
    if raffle.ticket_holders.len() > 0 {
        return Err(RaffleError::TicketHoldersNotProcessed);
    }
    if raffle.allow_fractional {
        return Err(RaffleError::FractionalOwnershipAllowed);
    }
    if !check_escrow(&raffle.raffle_id, &ctx.escrow) {
        return Err(RaffleError::InvalidEscrowAccount);
    }
    let system = system_program_id();
    if !ctx.charity_account_owner.same(&system) {
        return Err(RaffleError::InvalidCharityAccount);
    }
    let event = payout_of(raffle)?;
    raffle.payout_processed = true;
    Ok(event)
}

/// Why the payout of a partial sale with fractional ownership is refused; `None` when it
/// goes through.
pub open spec fn with_mint_payout_error(
    raffle: Raffle,
    ctx: ProcessPayoutFractionalWithMint,
) -> Option<RaffleError> {
    let token = ctx.seller_token_data@;
    let mint = ctx.property_token_mint_data@;
    if !raffle.is_completed {
        Some(RaffleError::RaffleNotClosed)
    } else if raffle.is_full_sale() {
        Some(RaffleError::FullSale)
    } else if raffle.payout_processed {
        Some(RaffleError::PayoutAlreadyProcessed)
    } else if raffle.ticket_holders@.len() > 0 {
        Some(RaffleError::TicketHoldersNotProcessed)
    } else if !raffle.allow_fractional {
        Some(RaffleError::FractionalOwnershipNotAllowed)
    } else if !escrow_valid(raffle.raffle_id@, ctx.escrow) {
        Some(RaffleError::InvalidEscrowAccount)
    } else if ctx.charity_account_owner@ != system_program_address() {
        Some(RaffleError::InvalidCharityAccount)
    } else if !token_account_valid(token) || !mint_valid(mint) {
        Some(RaffleError::InvalidAccountData)
    } else if token_account_mint(token) != raffle.property_token_mint@ {
        Some(RaffleError::InvalidTokenAccountMint)
    } else if token_account_owner(token) != ctx.seller@ {
        Some(RaffleError::InvalidTokenAccountOwner)
    } else if mint_authority(mint) != Some(ctx.seller@) {
        Some(RaffleError::InvalidMintAuthority)
    } else if !payout_fits(raffle) {
        Some(RaffleError::MathOverflow)
    } else {
        None
    }
}

/// The payout of a partial sale with fractional ownership: the split, and the fractional
/// units to mint to the seller for the unsold tickets.
#[derive(Clone, Debug)]
pub struct FractionalPayout {
    pub event: PayoutProcessed,
    pub seller_tokens: u64,
}

/// Checks and records the payout of a closed partial sale whose holders all received
/// fractional units. On success the caller moves the seller's payout and the charity's
/// contribution out of escrow and mints `seller_tokens` units to the seller.
pub fn process_payout_fractional_with_mint(
    raffle: &mut Raffle,
    ctx: &ProcessPayoutFractionalWithMint,
) -> (r: Result<FractionalPayout, RaffleError>)
    requires
        old(raffle).wf(),
    ensures
        final(raffle).wf(),
        r is Err <==> with_mint_payout_error(*old(raffle), *ctx) is Some,
        r matches Err(e) ==> {
            &&& with_mint_payout_error(*old(raffle), *ctx) == Some(e)
            &&& *final(raffle) == *old(raffle)
        },
        old(raffle).ticket_holders@.len() > 0 ==> r is Err,
        r matches Ok(p) ==> {
            &&& payout_matches(*old(raffle), p.event)
            &&& paid_out(*old(raffle), *final(raffle))
            &&& p.seller_tokens == units_for(
                old(raffle).total_tickets - old(raffle).tickets_sold,
                old(raffle).total_tickets as int,
            )
            &&& units_minted(*final(raffle)) == units_minted(*old(raffle)) + p.seller_tokens
        },
{
    if !raffle.is_completed {
        return Err(RaffleError::RaffleNotClosed);
    }
    if raffle.tickets_sold == raffle.total_tickets {
        return Err(RaffleError::FullSale);
    }
    if raffle.payout_processed {
        return Err(RaffleError::PayoutAlreadyProcessed);
    }
    if raffle.ticket_holders.len() > 0 {
        return Err(RaffleError::TicketHoldersNotProcessed);
    }
    if !raffle.allow_fractional {
        return Err(RaffleError::FractionalOwnershipNotAllowed);
    }
    if !check_escrow(&raffle.raffle_id, &ctx.escrow) {
        return Err(RaffleError::InvalidEscrowAccount);
    }
    let system = system_program_id();
    if !ctx.charity_account_owner.same(&system) {
        return Err(RaffleError::InvalidCharityAccount);
    }
    let token = unpack_token_account(ctx.seller_token_data.as_slice());
    let mint = unpack_mint(ctx.property_token_mint_data.as_slice());
    let (token, mint) = match (token, mint) {
        (Ok(t), Ok(m)) => (t, m),
        _ => {
            return Err(RaffleError::InvalidAccountData);
        },
    };
    if !token.mint.same(&raffle.property_token_mint) {
        return Err(RaffleError::InvalidTokenAccountMint);
    }
    if !token.owner.same(&ctx.seller) {
        return Err(RaffleError::InvalidTokenAccountOwner);
    }
    let authorized = match mint.mint_authority {
        Some(authority) => authority.same(&ctx.seller),
        None => false,
    };
    if !authorized {
        return Err(RaffleError::InvalidMintAuthority);
    }
    let event = payout_of(raffle)?;
    let unsold = raffle.total_tickets - raffle.tickets_sold;
    proof {
        lemma_units_within_supply(0, unsold as nat, raffle.total_tickets as nat);
    }
    match fractional_units(unsold, raffle.total_tickets) {
        Some(seller_tokens) => {
            raffle.payout_processed = true;
            Ok(FractionalPayout { event, seller_tokens })
        },
        None => Err(RaffleError::MathOverflow),
    }
}

/// The payout of a partial sale with fractional ownership, under its shorter name.
pub fn process_payout_fractional(
    raffle: &mut Raffle,
    ctx: &ProcessPayoutFractionalWithMint,
) -> (r: Result<FractionalPayout, RaffleError>)
    requires
        old(raffle).wf(),
    ensures
        final(raffle).wf(),
        r is Err <==> with_mint_payout_error(*old(raffle), *ctx) is Some,
        r matches Err(e) ==> {
            &&& with_mint_payout_error(*old(raffle), *ctx) == Some(e)
            &&& *final(raffle) == *old(raffle)
        },
        r matches Ok(p) ==> {
            &&& payout_matches(*old(raffle), p.event)
            &&& paid_out(*old(raffle), *final(raffle))
            &&& p.seller_tokens == units_for(
                old(raffle).total_tickets - old(raffle).tickets_sold,
                old(raffle).total_tickets as int,
            )
            &&& units_minted(*final(raffle)) == units_minted(*old(raffle)) + p.seller_tokens
        },
{
    process_payout_fractional_with_mint(raffle, ctx)
}

/// Each raffle pays out once: after any payout has gone through, every payout path refuses,
/// whatever accounts it is handed.
pub proof fn lemma_payout_once(before: Raffle, after: Raffle)
    requires
        before.wf(),
        paid_out(before, after),
    ensures
        forall|ctx: ProcessPayoutFullSale, confirmed: bool|
            #[trigger] full_sale_payout_error(after, ctx, confirmed) is Some,
        forall|ctx: ProcessPayoutFractionalNoMint| #[trigger] no_mint_payout_error(after, ctx) is Some,
        forall|ctx: ProcessPayoutFractionalWithMint|
            #[trigger] with_mint_payout_error(after, ctx) is Some,
{
}

} // verus!
