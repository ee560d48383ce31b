use vstd::prelude::*;

use crate::accounts::{
    CloseRaffle,
    InitializeRaffle,
    PurchaseTicket,
    RequestRandomness,
    SetFractionalOption,
    check_escrow,
    escrow_valid,
};
use crate::chain::{
    token_account_mint,
    token_account_owner,
    token_account_valid,
    unpack_token_account,
};
use crate::error::RaffleError;
use crate::events::{RaffleClosed, TicketPurchased};
use crate::key::Key;
use crate::ledger::{
    PAYMENT_ON_CHAIN,
    TicketHolder,
    buyers_distinct,
    find_holder,
    has_holder,
    holder_index,
    lemma_holder_within_sum,
    lemma_ticket_sum_push,
    lemma_ticket_sum_update,
    lemma_tickets_before_all,
    lemma_tickets_before_monotone,
    lemma_tickets_before_step,
    ticket_sum,
    tickets_before,
};
use crate::payout::TOTAL_TICKETS;
use crate::selection::{select_winner, winning_index};

verus! {

/// Where a raffle stands in its lifecycle. `Open` and `AwaitingRandomness` accept the
/// operations of a running raffle; the two completed phases are terminal.
#[derive(Clone, Copy, Debug, PartialEq, Eq, Structural)]
pub enum RafflePhase {
    Open,
    AwaitingRandomness,
    CompletedFull,
    CompletedPartial,
}

/// One raffle over a fixed pool of tickets backing one asset.
#[derive(Clone, Debug)]
pub struct Raffle {
    pub raffle_id: String,
    pub property_id: String,
    pub seller: Key,
    pub escrow_account: Key,
    /// Price of one ticket, in the smallest currency unit.
    pub ticket_price_sol: u64,
    pub total_tickets: u64,
    pub tickets_sold: u64,
    pub winner: Option<Key>,
    /// Mint of the non-fungible token that stands for sole ownership.
    pub property_nft_mint: Key,
    /// Mint of the fungible token that stands for fractional ownership.
    pub property_token_mint: Key,
    pub is_completed: bool,
    pub allow_fractional: bool,
    /// Holders in order of their first purchase, one record per buyer.
    pub ticket_holders: Vec<TicketHolder>,
    pub random_value: Option<u64>,
    /// Whether the terminal payout has run.
    pub payout_processed: bool,
}

impl Raffle {
    /// Every ticket is sold.
    pub open spec fn is_full_sale(&self) -> bool {
        self.tickets_sold == self.total_tickets
    }

    /// The invariant of a raffle: the ledger balances against the tickets sold, a winner
    /// and a random value are recorded exactly when a full sale has completed, and only
    /// settlement of a closed partial sale drains holder records.
    pub open spec fn wf(&self) -> bool {
        &&& 0 < self.total_tickets
        &&& self.tickets_sold <= self.total_tickets
        &&& buyers_distinct(self.ticket_holders@)
        &&& ticket_sum(self.ticket_holders@) <= self.tickets_sold
        &&& (!self.is_completed || self.is_full_sale()) ==> ticket_sum(self.ticket_holders@)
            == self.tickets_sold
        &&& (self.winner is Some <==> self.is_completed && self.is_full_sale())
        &&& (self.random_value is Some <==> self.is_completed && self.is_full_sale())
        &&& forall|i: int|
            0 <= i < self.ticket_holders@.len() ==> #[trigger] self.ticket_holders@[i].num_tickets > 0
        &&& self.payout_processed ==> self.is_completed && (self.is_full_sale()
            || self.ticket_holders@.len() == 0)
    }

    pub open spec fn phase_spec(&self) -> RafflePhase {
        if !self.is_completed {
            if self.is_full_sale() {
                RafflePhase::AwaitingRandomness
            } else {
                RafflePhase::Open
            }
        } else if self.is_full_sale() {
            RafflePhase::CompletedFull
        } else {
            RafflePhase::CompletedPartial
        }
    }

    /// The raffle's lifecycle phase.
    pub fn phase(&self) -> (r: RafflePhase)
        ensures
            r == self.phase_spec(),
    {
        let full = self.tickets_sold == self.total_tickets;
        if !self.is_completed {
            if full {
                RafflePhase::AwaitingRandomness
            } else {
                RafflePhase::Open
            }
        } else if full {
            RafflePhase::CompletedFull
        } else {
            RafflePhase::CompletedPartial
        }
    }

    /// Checks the invariant, for a raffle read back from storage.
    pub fn is_well_formed(&self) -> (r: bool)
        ensures
            r == self.wf(),
    {
        if self.total_tickets == 0 || self.tickets_sold > self.total_tickets {
            return false;
        }
        let ghost h = self.ticket_holders@;
        let n = self.ticket_holders.len();
        let mut sum: u64 = 0;
        let mut i: usize = 0;
        while i < n
            invariant
                h == self.ticket_holders@,
                n == h.len(),
                0 <= i <= n,
                sum == tickets_before(h, i as int),
                sum <= self.tickets_sold,
                forall|j: int| 0 <= j < i ==> #[trigger] h[j].num_tickets > 0,
            decreases n - i,
        {
            if self.ticket_holders[i].num_tickets == 0 {
                return false;
            }
            proof {
                lemma_tickets_before_step(h, i as int);
            }
            if self.ticket_holders[i].num_tickets > self.tickets_sold - sum {
                proof {
                    lemma_tickets_before_monotone(h, i as int + 1, n as int);
                    lemma_tickets_before_all(h);
                }
                return false;
            }
            sum = sum + self.ticket_holders[i].num_tickets;
            i = i + 1;
        }
        proof {
            lemma_tickets_before_all(h);
        }
        let mut a: usize = 0;
        while a < n
            invariant
                h == self.ticket_holders@,
                n == h.len(),
                0 <= a <= n,
                forall|x: int, y: int|
                    0 <= x < a && x < y < n ==> #[trigger] h[x].buyer != #[trigger] h[y].buyer,
            decreases n - a,
        {
            let mut b: usize = a + 1;
            while b < n
                invariant
                    h == self.ticket_holders@,
                    n == h.len(),
                    0 <= a < n,
                    a + 1 <= b <= n,
                    forall|x: int, y: int|
                        0 <= x < a && x < y < n ==> #[trigger] h[x].buyer != #[trigger] h[y].buyer,
                    forall|y: int| a < y < b ==> h[a as int].buyer != #[trigger] h[y].buyer,
                decreases n - b,
            {
                if self.ticket_holders[a].buyer.same(&self.ticket_holders[b].buyer) {
                    return false;
                }
                b = b + 1;
            }
            a = a + 1;
        }
        proof {
            assert forall|x: int, y: int|
                0 <= x < h.len() && 0 <= y < h.len() && x != y implies #[trigger] h[x].buyer
                != #[trigger] h[y].buyer by {
                if x < y {
                    assert(h[x].buyer != h[y].buyer);
                } else {
                    assert(h[y].buyer != h[x].buyer);
                }
            }
        }
        let full = self.tickets_sold == self.total_tickets;
        let full_and_done = self.is_completed && full;
        let balanced = (self.is_completed && !full) || sum == self.tickets_sold;
        let payout_ok = !self.payout_processed || (self.is_completed && (full
            || self.ticket_holders.len() == 0));
        balanced && (self.winner.is_some() == full_and_done) && (self.random_value.is_some()
            == full_and_done) && payout_ok
    }

    /// Tickets whose holders have already been settled.
    pub open spec fn settled_tickets(&self) -> int {
        self.tickets_sold - ticket_sum(self.ticket_holders@)
    }
}

/// The fields fixed when a raffle is created.
pub open spec fn same_terms(a: Raffle, b: Raffle) -> bool {
    &&& a.raffle_id == b.raffle_id
    &&& a.property_id == b.property_id
    &&& a.seller == b.seller
    &&& a.escrow_account == b.escrow_account
    &&& a.ticket_price_sol == b.ticket_price_sol
    &&& a.total_tickets == b.total_tickets
    &&& a.property_nft_mint == b.property_nft_mint
    &&& a.property_token_mint == b.property_token_mint
}

/// Creates a raffle of `TOTAL_TICKETS` tickets bound to the escrow account derived from
/// its id. Fails when the escrow account is not that account.
pub fn initialize_raffle(
    ctx: &InitializeRaffle,
    raffle_id: String,
    property_id: String,
    ticket_price_sol: u64,
    allow_fractional: bool,
) -> (r: Result<Raffle, RaffleError>)
    ensures
        r is Ok <==> escrow_valid(raffle_id@, ctx.escrow),
        r matches Err(e) ==> e == RaffleError::InvalidEscrowAccount,
        r matches Ok(raffle) ==> {
            &&& raffle.wf()
            &&& raffle.raffle_id@ == raffle_id@
            &&& raffle.property_id@ == property_id@
            &&& raffle.seller == ctx.seller
            &&& raffle.escrow_account == ctx.escrow.key
            &&& raffle.ticket_price_sol == ticket_price_sol
            &&& raffle.total_tickets == TOTAL_TICKETS
            &&& raffle.tickets_sold == 0
            &&& raffle.winner is None
            &&& raffle.property_nft_mint == ctx.property_nft_mint
            &&& raffle.property_token_mint == ctx.property_token_mint
            &&& !raffle.is_completed
            &&& raffle.allow_fractional == allow_fractional
            &&& raffle.ticket_holders@.len() == 0
            &&& raffle.random_value is None
            &&& !raffle.payout_processed
        },
{
    if !check_escrow(&raffle_id, &ctx.escrow) {
        return Err(RaffleError::InvalidEscrowAccount);
    }
    let raffle = Raffle {
        raffle_id,
        property_id,
        seller: ctx.seller,
        escrow_account: ctx.escrow.key,
        ticket_price_sol,
        total_tickets: TOTAL_TICKETS,
        tickets_sold: 0,
        winner: None,
        property_nft_mint: ctx.property_nft_mint,
        property_token_mint: ctx.property_token_mint,
        is_completed: false,
        allow_fractional,
        ticket_holders: Vec::new(),
        random_value: None,
        payout_processed: false,
    };
    Ok(raffle)
}

/// Why a purchase is refused, checked in this order; `None` when it goes through.
pub open spec fn purchase_error(
    raffle: Raffle,
    ctx: PurchaseTicket,
    num_tickets: u64,
) -> Option<RaffleError> {
    let h = raffle.ticket_holders@;
    let data = ctx.buyer_token_data@;
    if raffle.is_completed {
        Some(RaffleError::RaffleCompleted)
    } else if num_tickets == 0 {
        Some(RaffleError::InvalidTicketCount)
    } else if raffle.tickets_sold + num_tickets > raffle.total_tickets {
        Some(RaffleError::TicketLimitExceeded)
    } else if !escrow_valid(raffle.raffle_id@, ctx.escrow) {
        Some(RaffleError::InvalidEscrowAccount)
    } else if !token_account_valid(data) {
        Some(RaffleError::InvalidAccountData)
    } else if token_account_mint(data) != raffle.property_token_mint@ {
        Some(RaffleError::InvalidTokenAccountMint)
    } else if token_account_owner(data) != ctx.buyer@ {
        Some(RaffleError::InvalidTokenAccountOwner)
    } else if has_holder(h, ctx.buyer) && !h[holder_index(h, ctx.buyer)].kyc_verified {
        Some(RaffleError::KycNotVerified)
    } else if has_holder(h, ctx.buyer) && h[holder_index(h, ctx.buyer)].token_account
        != ctx.buyer_token_account {
        Some(RaffleError::InvalidHolderTokenAccount)
    } else if raffle.ticket_price_sol * num_tickets > u64::MAX {
        Some(RaffleError::MathOverflow)
    } else {
        None
    }
}

/// The holder list after `buyer` buys `num_tickets`: an existing record grows, otherwise a
/// new record is appended.
pub open spec fn holders_after_purchase(
    h: Seq<TicketHolder>,
    buyer: Key,
    token_account: Key,
    num_tickets: u64,
    payment_method: u8,
) -> Seq<TicketHolder> {
    if has_holder(h, buyer) {
        let i = holder_index(h, buyer);
        h.update(i, TicketHolder { num_tickets: (h[i].num_tickets + num_tickets) as u64, ..h[i] })
    } else {
        h.push(
            TicketHolder {
                buyer,
                num_tickets,
                token_account,
                kyc_verified: true,
                payment_method,
            },
        )
    }
}

/// What a purchase asks of the caller: the amount to move from the buyer into escrow
/// (none when the buyer pays off chain), and the notice to publish.
#[derive(Clone, Debug)]
pub struct Purchase {
    pub escrow_deposit: Option<u64>,
    pub event: TicketPurchased,
}

/// Records the purchase of `num_tickets` tickets by `ctx.buyer`, paid through
/// `payment_method` (`PAYMENT_ON_CHAIN` or a channel settled off chain).
pub fn purchase_ticket(
    raffle: &mut Raffle,
    ctx: &PurchaseTicket,
    num_tickets: u64,
    payment_method: u8,
) -> (r: Result<Purchase, RaffleError>)
    requires
        old(raffle).wf(),
    ensures
        final(raffle).wf(),
        r is Err <==> purchase_error(*old(raffle), *ctx, num_tickets) is Some,
        r matches Err(e) ==> {
            &&& purchase_error(*old(raffle), *ctx, num_tickets) == Some(e)
            &&& *final(raffle) == *old(raffle)
        },
        num_tickets == 0 || old(raffle).tickets_sold + num_tickets > old(raffle).total_tickets ==> {
            &&& r is Err
            &&& *final(raffle) == *old(raffle)
        },
        r matches Ok(p) ==> {
            &&& same_terms(*final(raffle), *old(raffle))
            &&& final(raffle).tickets_sold == old(raffle).tickets_sold + num_tickets
            &&& final(raffle).ticket_holders@ == holders_after_purchase(
                old(raffle).ticket_holders@,
                ctx.buyer,
                ctx.buyer_token_account,
                num_tickets,
                payment_method,
            )
            &&& final(raffle).winner == old(raffle).winner
            &&& final(raffle).is_completed == old(raffle).is_completed
            &&& final(raffle).allow_fractional == old(raffle).allow_fractional
            &&& final(raffle).random_value == old(raffle).random_value
            &&& final(raffle).payout_processed == old(raffle).payout_processed
            &&& p.escrow_deposit == (if payment_method == PAYMENT_ON_CHAIN {
                Some((old(raffle).ticket_price_sol * num_tickets) as u64)
            } else {
                None
            })
            &&& p.event.raffle_id@ == old(raffle).raffle_id@
            &&& p.event.buyer == ctx.buyer
            &&& p.event.num_tickets == num_tickets
            &&& p.event.payment_method == payment_method
        },
{
    if raffle.is_completed {
        return Err(RaffleError::RaffleCompleted);
    }
    if num_tickets == 0 {
        return Err(RaffleError::InvalidTicketCount);
    }
    if num_tickets > raffle.total_tickets - raffle.tickets_sold {
        return Err(RaffleError::TicketLimitExceeded);
    }
    if !check_escrow(&raffle.raffle_id, &ctx.escrow) {
        return Err(RaffleError::InvalidEscrowAccount);
    }
    let account = match unpack_token_account(ctx.buyer_token_data.as_slice()) {
        Ok(a) => a,
        Err(_) => {
            return Err(RaffleError::InvalidAccountData);
        },
    };
    if !account.mint.same(&raffle.property_token_mint) {
        return Err(RaffleError::InvalidTokenAccountMint);
    }
    if !account.owner.same(&ctx.buyer) {
        return Err(RaffleError::InvalidTokenAccountOwner);
    }
    let existing = find_holder(&raffle.ticket_holders, &ctx.buyer);
    if let Some(i) = existing {
        if !raffle.ticket_holders[i].kyc_verified {
            return Err(RaffleError::KycNotVerified);
        }
        if !raffle.ticket_holders[i].token_account.same(&ctx.buyer_token_account) {
            return Err(RaffleError::InvalidHolderTokenAccount);
        }
    }
    let cost = match raffle.ticket_price_sol.checked_mul(num_tickets) {
        Some(c) => c,
        None => {
            return Err(RaffleError::MathOverflow);
        },
    };
    let ghost h = raffle.ticket_holders@;
    match existing {
        Some(i) => {
            let mut holder = raffle.ticket_holders[i];
            proof {
                lemma_holder_within_sum(h, i as int);
            }
            holder.num_tickets = holder.num_tickets + num_tickets;
            raffle.ticket_holders.set(i, holder);
            proof {
                lemma_ticket_sum_update(h, i as int, holder);
                assert(raffle.ticket_holders@ =~= holders_after_purchase(
                    h,
                    ctx.buyer,
                    ctx.buyer_token_account,
                    num_tickets,
                    payment_method,
                ));
                assert forall|a: int, b: int|
                    0 <= a < raffle.ticket_holders@.len() && 0 <= b < raffle.ticket_holders@.len()
                        && a != b implies #[trigger] raffle.ticket_holders@[a].buyer
                    != #[trigger] raffle.ticket_holders@[b].buyer by {
                    assert(h[a].buyer != h[b].buyer);
                }
            }
        },
        None => {
            let holder = TicketHolder {
                buyer: ctx.buyer,
                num_tickets,
                token_account: ctx.buyer_token_account,
                kyc_verified: true,
                payment_method,
            };
            raffle.ticket_holders.push(holder);
            proof {
                lemma_ticket_sum_push(h, holder);
                assert forall|a: int, b: int|
                    0 <= a < raffle.ticket_holders@.len() && 0 <= b < raffle.ticket_holders@.len()
                        && a != b implies #[trigger] raffle.ticket_holders@[a].buyer
                    != #[trigger] raffle.ticket_holders@[b].buyer by {
                    if a < h.len() && b < h.len() {
                        assert(h[a].buyer != h[b].buyer);
                    } else if a < h.len() {
                        assert(h[a].buyer != ctx.buyer);
                    } else {
                        assert(h[b].buyer != ctx.buyer);
                    }
                }
            }
        },
    }
    raffle.tickets_sold = raffle.tickets_sold + num_tickets;
    let escrow_deposit = if payment_method == PAYMENT_ON_CHAIN {
        Some(cost)
    } else {
        None
    };
    Ok(
        Purchase {
            escrow_deposit,
            event: TicketPurchased {
                raffle_id: raffle.raffle_id.clone(),
                buyer: ctx.buyer,
                num_tickets,
                payment_method,
            },
        },
    )
}

/// Sets whether a partial sale settles in fractional units. Only the seller may do so,
/// and only before any ticket is sold.
pub fn set_fractional_option(
    raffle: &mut Raffle,
    ctx: &SetFractionalOption,
    allow_fractional: bool,
) -> (r: Result<(), RaffleError>)
    requires
        old(raffle).wf(),
    ensures
        final(raffle).wf(),
        r == (if old(raffle).is_completed {
            Err(RaffleError::RaffleCompleted)
        } else if ctx.seller != old(raffle).seller {
            Err(RaffleError::InvalidSeller)
        } else if old(raffle).tickets_sold > 0 {
            Err(RaffleError::TicketsAlreadySold)
        } else {
            Ok(())
        }),
        r is Err ==> *final(raffle) == *old(raffle),
        r is Ok ==> *final(raffle) == (Raffle { allow_fractional, ..*old(raffle) }),
{
    if raffle.is_completed {
        return Err(RaffleError::RaffleCompleted);
    }
    if !ctx.seller.same(&raffle.seller) {
        return Err(RaffleError::InvalidSeller);
    }
    if raffle.tickets_sold > 0 {
        return Err(RaffleError::TicketsAlreadySold);
    }
    raffle.allow_fractional = allow_fractional;
    Ok(())
}

/// Checks that a randomness request may go out: the raffle is open, sold out, and bound
/// to the given escrow account. Changes nothing.
pub fn request_randomness(raffle: &Raffle, ctx: &RequestRandomness) -> (r: Result<(), RaffleError>)
    ensures
        r == (if raffle.is_completed {
            Err(RaffleError::RaffleCompleted)
        } else if !raffle.is_full_sale() {
            Err(RaffleError::NotEnoughTickets)
        } else if !escrow_valid(raffle.raffle_id@, ctx.escrow) {
            Err(RaffleError::InvalidEscrowAccount)
        } else {
            Ok(())
        }),
{
    if raffle.is_completed {
        return Err(RaffleError::RaffleCompleted);
    }
    if raffle.tickets_sold != raffle.total_tickets {
        return Err(RaffleError::NotEnoughTickets);
    }
    if !check_escrow(&raffle.raffle_id, &ctx.escrow) {
        return Err(RaffleError::InvalidEscrowAccount);
    }
    Ok(())
}

/// Why a random value is refused; `None` when it is taken.
pub open spec fn fulfill_error(raffle: Raffle) -> Option<RaffleError> {
    if raffle.is_completed {
        Some(RaffleError::RaffleCompleted)
    } else if !raffle.is_full_sale() {
        Some(RaffleError::NotEnoughTickets)
    } else {
        None
    }
}

/// The raffle after a sold-out raffle takes `random_value`: the value is recorded, the
/// holder owning the drawn ticket wins, and the raffle completes.
pub open spec fn fulfilled(old_raffle: Raffle, new_raffle: Raffle, random_value: u64) -> bool {
    let h = old_raffle.ticket_holders@;
    &&& same_terms(new_raffle, old_raffle)
    &&& new_raffle.tickets_sold == old_raffle.tickets_sold
    &&& new_raffle.ticket_holders == old_raffle.ticket_holders
    &&& new_raffle.allow_fractional == old_raffle.allow_fractional
    &&& new_raffle.random_value == Some(random_value)
    &&& new_raffle.payout_processed == old_raffle.payout_processed
    &&& new_raffle.winner == Some(h[winning_index(h, random_value)].buyer)
    &&& new_raffle.is_completed
}

/// Takes the random value for a sold-out raffle, selects its winner and completes it.
pub fn fulfill_randomness(
    raffle: &mut Raffle,
    random_value: u64,
) -> (r: Result<RaffleClosed, RaffleError>)
    requires
        old(raffle).wf(),
    ensures
        final(raffle).wf(),
        r is Err <==> fulfill_error(*old(raffle)) is Some,
        r matches Err(e) ==> {
            &&& fulfill_error(*old(raffle)) == Some(e)
            &&& *final(raffle) == *old(raffle)
        },
        r matches Ok(event) ==> {
            &&& fulfilled(*old(raffle), *final(raffle), random_value)
            &&& event.raffle_id@ == old(raffle).raffle_id@
            &&& event.is_full_sale
            &&& event.winner == final(raffle).winner
        },
{
    if raffle.is_completed {
        return Err(RaffleError::RaffleCompleted);
    }
    if raffle.tickets_sold != raffle.total_tickets {
        return Err(RaffleError::NotEnoughTickets);
    }
    // A sold-out raffle's holders hold all of its tickets, so some holder wins.
    let index = select_winner(&raffle.ticket_holders, random_value).unwrap();
    let winner = raffle.ticket_holders[index].buyer;
    raffle.random_value = Some(random_value);
    raffle.winner = Some(winner);
    raffle.is_completed = true;
    Ok(RaffleClosed { raffle_id: raffle.raffle_id.clone(), is_full_sale: true, winner: Some(winner) })
}

/// Why a direct closure is refused; `None` when it goes through.
pub open spec fn close_error(raffle: Raffle, ctx: CloseRaffle) -> Option<RaffleError> {
    if raffle.is_completed {
        Some(RaffleError::RaffleCompleted)
    } else if !escrow_valid(raffle.raffle_id@, ctx.escrow) {
        Some(RaffleError::InvalidEscrowAccount)
    } else if raffle.is_full_sale() {
        Some(RaffleError::UseFulfillRandomness)
    } else {
        None
    }
}

/// Closes an undersold raffle, which then settles holder by holder. A sold-out raffle
/// closes through `fulfill_randomness` instead.
pub fn close_raffle(raffle: &mut Raffle, ctx: &CloseRaffle) -> (r: Result<RaffleClosed, RaffleError>)
    requires
        old(raffle).wf(),
    ensures
        final(raffle).wf(),
        r is Err <==> close_error(*old(raffle), *ctx) is Some,
        r matches Err(e) ==> {
            &&& close_error(*old(raffle), *ctx) == Some(e)
            &&& *final(raffle) == *old(raffle)
        },
        r matches Ok(event) ==> {
            &&& *final(raffle) == (Raffle { is_completed: true, ..*old(raffle) })
            &&& event.raffle_id@ == old(raffle).raffle_id@
            &&& !event.is_full_sale
            &&& event.winner is None
        },
{
    if raffle.is_completed {
        return Err(RaffleError::RaffleCompleted);
    }
    if !check_escrow(&raffle.raffle_id, &ctx.escrow) {
        return Err(RaffleError::InvalidEscrowAccount);
    }
    if raffle.tickets_sold == raffle.total_tickets {
        return Err(RaffleError::UseFulfillRandomness);
    }
    raffle.is_completed = true;
    Ok(RaffleClosed { raffle_id: raffle.raffle_id.clone(), is_full_sale: false, winner: None })
}

/// Through every sequence of purchases (and every other operation) the tickets sold never
/// exceed the capacity, and while the raffle is open they equal the tickets its holders
/// hold.
pub proof fn lemma_ledger_balanced(raffle: Raffle)
    requires
        raffle.wf(),
    ensures
        raffle.tickets_sold <= raffle.total_tickets,
        !raffle.is_completed ==> raffle.tickets_sold == ticket_sum(raffle.ticket_holders@),
{
}

/// A random value takes effect once: after a raffle has taken one, it refuses any other.
pub proof fn lemma_fulfill_once(first: Raffle, after: Raffle, random_value: u64)
    requires
        first.wf(),
        fulfill_error(first) is None,
        fulfilled(first, after, random_value),
    ensures
        fulfill_error(after) == Some(RaffleError::RaffleCompleted),
{
}

} // verus!
