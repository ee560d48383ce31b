use vstd::prelude::*;

verus! {

/// Number of tickets every raffle offers.
pub const TOTAL_TICKETS: u64 = 10_000;

/// Number of fractional-ownership units that stand for the whole asset.
pub const TOTAL_FRACTIONAL_UNITS: u64 = 1_000_000;

/// The seller's share of the proceeds: nine tenths, rounded down.
pub open spec fn seller_share(proceeds: int) -> int {
    proceeds * 9 / 10
}

/// The platform's share of the proceeds: one tenth, rounded down.
pub open spec fn platform_share(proceeds: int) -> int {
    proceeds / 10
}

/// The charity's share: one tenth of the platform's share, rounded down.
pub open spec fn charity_share(proceeds: int) -> int {
    platform_share(proceeds) / 10
}

/// Fractional units that one ticket stands for, in a raffle of `total_tickets` tickets.
pub open spec fn units_per_ticket_spec(total_tickets: int) -> int {
    TOTAL_FRACTIONAL_UNITS as int / total_tickets
}

/// Fractional units that `tickets` tickets stand for.
pub open spec fn units_for(tickets: int, total_tickets: int) -> int {
    tickets * units_per_ticket_spec(total_tickets)
}

/// The three amounts that a payout moves or records.
#[derive(Clone, Copy, Debug, PartialEq, Eq, Structural)]
pub struct PayoutSplit {
    pub seller_payout: u64,
    pub platform_revenue: u64,
    pub charity_contribution: u64,
}

/// What a raffle took in: the ticket price times the tickets sold, if that fits.
pub fn total_proceeds(ticket_price: u64, tickets_sold: u64) -> (r: Option<u64>)
    ensures
        r == (if ticket_price * tickets_sold <= u64::MAX {
            Some((ticket_price * tickets_sold) as u64)
        } else {
            None
        }),
{
    ticket_price.checked_mul(tickets_sold)
}

/// Splits the proceeds into the seller's, the platform's and the charity's amounts.
/// Fails when nine times the proceeds does not fit in 64 bits.
pub fn split_proceeds(proceeds: u64) -> (r: Option<PayoutSplit>)
    ensures
        r is Some <==> proceeds * 9 <= u64::MAX,
        r matches Some(s) ==> {
            &&& s.seller_payout == seller_share(proceeds as int)
            &&& s.platform_revenue == platform_share(proceeds as int)
            &&& s.charity_contribution == charity_share(proceeds as int)
        },
{
    match proceeds.checked_mul(9) {
        Some(nine_tenths) => {
            let platform_revenue = proceeds / 10;
            Some(
                PayoutSplit {
                    seller_payout: nine_tenths / 10,
                    platform_revenue,
                    charity_contribution: platform_revenue / 10,
                },
            )
        },
        None => None,
    }
}

/// Fractional units that one ticket stands for.
pub fn units_per_ticket(total_tickets: u64) -> (r: u64)
    requires
        total_tickets > 0,
    ensures
        r == units_per_ticket_spec(total_tickets as int),
{
    TOTAL_FRACTIONAL_UNITS / total_tickets
}

/// Fractional units that `tickets` tickets stand for, if the product fits.
pub fn fractional_units(tickets: u64, total_tickets: u64) -> (r: Option<u64>)
    requires
        total_tickets > 0,
    ensures
        r == (if units_for(tickets as int, total_tickets as int) <= u64::MAX {
            Some(units_for(tickets as int, total_tickets as int) as u64)
        } else {
            None
        }),
{
    let per_ticket = units_per_ticket(total_tickets);
    tickets.checked_mul(per_ticket)
}

/// For every amount of proceeds, the seller's and the platform's shares together never
/// exceed the proceeds, and the charity's share never exceeds the platform's.
pub proof fn lemma_split_conserves_funds(proceeds: nat)
    ensures
        seller_share(proceeds as int) + platform_share(proceeds as int) <= proceeds,
        charity_share(proceeds as int) <= platform_share(proceeds as int),
{
    let p = proceeds as int;
    let q = p / 10;
    let m = p % 10;
    assert(p == 10 * q + m && 0 <= m < 10) by (nonlinear_arith)
        requires q == p / 10, m == p % 10, p >= 0;
    assert(p * 9 == 10 * (9 * q) + 9 * m) by (nonlinear_arith)
        requires p == 10 * q + m;
    assert(p * 9 / 10 <= 9 * q + m) by (nonlinear_arith)
        requires p * 9 == 10 * (9 * q) + 9 * m, 0 <= m < 10;
}

/// Fractional units issued for any tickets of a raffle (to holders for the tickets they
/// bought, to the seller for those left unsold) never exceed the fixed supply.
pub proof fn lemma_units_within_supply(holder_tickets: nat, unsold_tickets: nat, total_tickets: nat)
    requires
        total_tickets > 0,
        holder_tickets + unsold_tickets <= total_tickets,
    ensures
        units_for(holder_tickets as int, total_tickets as int) + units_for(
            unsold_tickets as int,
            total_tickets as int,
        ) <= TOTAL_FRACTIONAL_UNITS,
{
    let per = units_per_ticket_spec(total_tickets as int);
    let t = total_tickets as int;
    let u = TOTAL_FRACTIONAL_UNITS as int;
    assert(per * t <= u) by (nonlinear_arith)
        requires per == u / t, t > 0, u >= 0;
    assert(holder_tickets * per + unsold_tickets * per <= t * per) by (nonlinear_arith)
        requires holder_tickets + unsold_tickets <= t, per >= 0;
}

/// Units for two batches of tickets are the units for their sum.
pub proof fn lemma_units_additive(a: nat, b: nat, total_tickets: nat)
    ensures
        units_for(a as int, total_tickets as int) + units_for(b as int, total_tickets as int)
            == units_for((a + b) as int, total_tickets as int),
        units_for(0, total_tickets as int) == 0,
{
    let per = units_per_ticket_spec(total_tickets as int);
    assert(a * per + b * per == (a + b) * per) by (nonlinear_arith);
}

} // verus!
