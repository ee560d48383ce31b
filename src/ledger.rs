use vstd::prelude::*;

use crate::key::Key;

verus! {

/// The payment channel of a ticket holder that paid on chain; any other value means the
/// holder paid through a channel settled off chain.
pub const PAYMENT_ON_CHAIN: u8 = 0;

/// One buyer's aggregated position in a raffle.
#[derive(Clone, Copy, Debug, PartialEq, Eq)]
pub struct TicketHolder {
    pub buyer: Key,
    pub num_tickets: u64,
    /// Account that receives fractional units for these tickets.
    pub token_account: Key,
    pub kyc_verified: bool,
    pub payment_method: u8,
}

/// Total tickets held by the holders of `h`.
pub open spec fn ticket_sum(h: Seq<TicketHolder>) -> int
    decreases h.len(),
{
    if h.len() == 0 {
        0
    } else {
        ticket_sum(h.drop_last()) + h.last().num_tickets
    }
}

/// Tickets held by the holders before position `i`.
pub open spec fn tickets_before(h: Seq<TicketHolder>, i: int) -> int {
    ticket_sum(h.take(i))
}

/// No buyer has two records.
pub open spec fn buyers_distinct(h: Seq<TicketHolder>) -> bool {
    forall|i: int, j: int|
        0 <= i < h.len() && 0 <= j < h.len() && i != j ==> #[trigger] h[i].buyer != #[trigger] h[j].buyer
}

/// Whether `buyer` has a record in `h`.
pub open spec fn has_holder(h: Seq<TicketHolder>, buyer: Key) -> bool {
    exists|i: int| 0 <= i < h.len() && #[trigger] h[i].buyer == buyer
}

/// The position of `buyer`'s record in `h` (meaningful when `has_holder`).
pub open spec fn holder_index(h: Seq<TicketHolder>, buyer: Key) -> int {
    choose|i: int| 0 <= i < h.len() && #[trigger] h[i].buyer == buyer
}

pub proof fn lemma_ticket_sum_nonneg(h: Seq<TicketHolder>)
    ensures
        ticket_sum(h) >= 0,
    decreases h.len(),
{
    if h.len() > 0 {
        lemma_ticket_sum_nonneg(h.drop_last());
    }
}

pub proof fn lemma_ticket_sum_push(h: Seq<TicketHolder>, x: TicketHolder)
    ensures
        ticket_sum(h.push(x)) == ticket_sum(h) + x.num_tickets,
{
    assert(h.push(x).drop_last() =~= h);
}

pub proof fn lemma_tickets_before_step(h: Seq<TicketHolder>, i: int)
    requires
        0 <= i < h.len(),
    ensures
        tickets_before(h, i + 1) == tickets_before(h, i) + h[i].num_tickets,
{
    assert(h.take(i + 1).drop_last() =~= h.take(i));
}

pub proof fn lemma_tickets_before_all(h: Seq<TicketHolder>)
    ensures
        tickets_before(h, h.len() as int) == ticket_sum(h),
{
    assert(h.take(h.len() as int) =~= h);
}

/// Counting more holders never counts fewer tickets.
pub proof fn lemma_tickets_before_monotone(h: Seq<TicketHolder>, i: int, j: int)
    requires
        0 <= i <= j <= h.len(),
    ensures
        tickets_before(h, i) <= tickets_before(h, j),
    decreases j - i,
{
    if i < j {
        lemma_tickets_before_monotone(h, i, j - 1);
        lemma_tickets_before_step(h, j - 1);
    }
}

/// Each holder's count is at most the total.
pub proof fn lemma_holder_within_sum(h: Seq<TicketHolder>, i: int)
    requires
        0 <= i < h.len(),
    ensures
        h[i].num_tickets <= ticket_sum(h),
{
    lemma_tickets_before_step(h, i);
    lemma_ticket_sum_nonneg(h.take(i));
    lemma_tickets_before_monotone(h, i + 1, h.len() as int);
    lemma_tickets_before_all(h);
}

pub proof fn lemma_ticket_sum_update(h: Seq<TicketHolder>, i: int, x: TicketHolder)
    requires
        0 <= i < h.len(),
    ensures
        ticket_sum(h.update(i, x)) == ticket_sum(h) - h[i].num_tickets + x.num_tickets,
    decreases h.len(),
{
    let u = h.update(i, x);
    if i == h.len() - 1 {
        assert(u.drop_last() =~= h.drop_last());
    } else {
        lemma_ticket_sum_update(h.drop_last(), i, x);
        assert(u.drop_last() =~= h.drop_last().update(i, x));
    }
}

pub proof fn lemma_ticket_sum_remove(h: Seq<TicketHolder>, i: int)
    requires
        0 <= i < h.len(),
    ensures
        ticket_sum(h.remove(i)) == ticket_sum(h) - h[i].num_tickets,
    decreases h.len(),
{
    let r = h.remove(i);
    if i == h.len() - 1 {
        assert(r =~= h.drop_last());
    } else {
        lemma_ticket_sum_remove(h.drop_last(), i);
        assert(r.drop_last() =~= h.drop_last().remove(i));
    }
}

/// With distinct buyers, a record of `buyer` is the one that `holder_index` names.
pub proof fn lemma_holder_index_unique(h: Seq<TicketHolder>, buyer: Key, i: int)
    requires
        buyers_distinct(h),
        0 <= i < h.len(),
        h[i].buyer == buyer,
    ensures
        has_holder(h, buyer),
        holder_index(h, buyer) == i,
{
    assert(has_holder(h, buyer));
    let j = holder_index(h, buyer);
    assert(h[j].buyer == buyer);
}

/// Finds the position of `buyer`'s record.
pub fn find_holder(holders: &Vec<TicketHolder>, buyer: &Key) -> (r: Option<usize>)
    requires
        buyers_distinct(holders@),
    ensures
        r is Some <==> has_holder(holders@, *buyer),
        r matches Some(i) ==> i == holder_index(holders@, *buyer),
{
    let mut i: usize = 0;
    while i < holders.len()
        invariant
            0 <= i <= holders@.len(),
            buyers_distinct(holders@),
            forall|j: int| 0 <= j < i ==> #[trigger] holders@[j].buyer != *buyer,
        decreases holders@.len() - i,
    {
        if holders[i].buyer.same(buyer) {
            proof {
                lemma_holder_index_unique(holders@, *buyer, i as int);
            }
            return Some(i);
        }
        i = i + 1;
    }
    None
}

} // verus!
