use vstd::prelude::*;

use crate::ledger::{
    TicketHolder,
    lemma_tickets_before_all,
    lemma_tickets_before_monotone,
    lemma_tickets_before_step,
    ticket_sum,
    tickets_before,
};

verus! {

/// Holder `i` owns ticket slot `slot`: the holders before it own the slots below its range,
/// and its range is `[tickets_before(h, i), tickets_before(h, i) + its count)`.
pub open spec fn owns_slot(h: Seq<TicketHolder>, i: int, slot: int) -> bool {
    &&& 0 <= i < h.len()
    &&& tickets_before(h, i) <= slot
    &&& slot < tickets_before(h, i) + h[i].num_tickets
}

/// The slot that a random value draws among the tickets held.
pub open spec fn drawn_slot(h: Seq<TicketHolder>, random_value: u64) -> int {
    random_value as int % ticket_sum(h)
}

/// The position of the holder that a random value selects.
pub open spec fn winning_index(h: Seq<TicketHolder>, random_value: u64) -> int {
    choose|i: int| owns_slot(h, i, drawn_slot(h, random_value))
}

/// At most one holder owns any slot.
pub proof fn lemma_slot_owner_unique(h: Seq<TicketHolder>, slot: int, i: int, j: int)
    requires
        owns_slot(h, i, slot),
        owns_slot(h, j, slot),
    ensures
        i == j,
{
    if i < j {
        lemma_tickets_before_step(h, i);
        lemma_tickets_before_monotone(h, i + 1, j);
    } else if j < i {
        lemma_tickets_before_step(h, j);
        lemma_tickets_before_monotone(h, j + 1, i);
    }
}

/// Winner selection is a function of the random value and the holder list: the selected
/// holder owns the drawn slot, its range is exactly
/// `[tickets_before, tickets_before + count)`, and any holder owning that slot is it.
pub proof fn lemma_winner_determined(h: Seq<TicketHolder>, random_value: u64, i: int)
    requires
        ticket_sum(h) > 0,
        owns_slot(h, i, drawn_slot(h, random_value)),
    ensures
        winning_index(h, random_value) == i,
        tickets_before(h, i) <= drawn_slot(h, random_value) < tickets_before(h, i)
            + h[i].num_tickets,
{
    let w = winning_index(h, random_value);
    assert(owns_slot(h, w, drawn_slot(h, random_value)));
    lemma_slot_owner_unique(h, drawn_slot(h, random_value), i, w);
}

/// Selects the holder whose ticket range holds `random_value` modulo the tickets held,
/// walking the holders in their stored order. `None` when no tickets are held.
pub fn select_winner(holders: &Vec<TicketHolder>, random_value: u64) -> (r: Option<usize>)
    requires
        ticket_sum(holders@) <= u64::MAX,
    ensures
        r is Some <==> ticket_sum(holders@) > 0,
        r matches Some(i) ==> {
            &&& i == winning_index(holders@, random_value)
            &&& owns_slot(holders@, i as int, drawn_slot(holders@, random_value))
        },
{
    let h = Ghost(holders@);
    let mut total: u64 = 0;
    let mut i: usize = 0;
    while i < holders.len()
        invariant
            0 <= i <= holders@.len(),
            h@ == holders@,
            ticket_sum(h@) <= u64::MAX,
            total == tickets_before(h@, i as int),
        decreases holders@.len() - i,
    {
        proof {
            lemma_tickets_before_step(h@, i as int);
            lemma_tickets_before_monotone(h@, i as int + 1, h@.len() as int);
            lemma_tickets_before_all(h@);
        }
        total = total + holders[i].num_tickets;
        i = i + 1;
    }
    proof {
        lemma_tickets_before_all(h@);
    }
    if total == 0 {
        return None;
    }
    let slot = random_value % total;
    let mut running: u64 = 0;
    let mut k: usize = 0;
    while k < holders.len()
        invariant
            0 <= k <= holders@.len(),
            h@ == holders@,
            total == ticket_sum(h@),
            total > 0,
            slot == drawn_slot(h@, random_value),
            running == tickets_before(h@, k as int),
            running <= slot,
        decreases holders@.len() - k,
    {
        proof {
            lemma_tickets_before_step(h@, k as int);
            lemma_tickets_before_monotone(h@, k as int + 1, h@.len() as int);
            lemma_tickets_before_all(h@);
        }
        running = running + holders[k].num_tickets;
        if slot < running {
            proof {
                lemma_winner_determined(h@, random_value, k as int);
            }
            return Some(k);
        }
        k = k + 1;
    }
    proof {
        lemma_tickets_before_all(h@);
    }
    None
}

} // verus!
