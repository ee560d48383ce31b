use anchor_lang::prelude::Pubkey;
use homechance_raffle::accounts::{
    CloseRaffle, EscrowAccount, InitializeRaffle, ProcessPayoutFractionalNoMint,
    ProcessPayoutFractionalWithMint, ProcessPayoutFullSale, PurchaseTicket, RefundOrDistribute,
    RequestRandomness, SetFractionalOption,
};
use homechance_raffle::error::RaffleError;
use homechance_raffle::key::Key;
use homechance_raffle::ledger::TicketHolder;
use homechance_raffle::raffle::{
    close_raffle, fulfill_randomness, initialize_raffle, purchase_ticket, request_randomness,
    set_fractional_option, Raffle, RafflePhase,
};
use homechance_raffle::settlement::{
    process_payout_fractional, process_payout_fractional_no_mint,
    process_payout_fractional_with_mint, process_payout_full_sale, refund_or_distribute, Settlement,
};

fn unique() -> Key {
    Key::new(Pubkey::new_unique().to_bytes())
}

fn system() -> Key {
    Key::new([0u8; 32])
}

fn escrow_for(raffle_id: &str, program_id: Key) -> EscrowAccount {
    let (address, _) = Pubkey::find_program_address(
        &[b"escrow", raffle_id.as_bytes()],
        &Pubkey::new_from_array(program_id.bytes),
    );
    EscrowAccount { program_id, key: Key::new(address.to_bytes()), owner: system() }
}

fn token_account_data(mint: Key, owner: Key, amount: u64) -> Vec<u8> {
    let mut d = vec![0u8; 165];
    d[0..32].copy_from_slice(&mint.bytes);
    d[32..64].copy_from_slice(&owner.bytes);
    d[64..72].copy_from_slice(&amount.to_le_bytes());
    d[108] = 1;
    d
}

fn mint_data(authority: Key) -> Vec<u8> {
    let mut d = vec![0u8; 82];
    d[0] = 1;
    d[4..36].copy_from_slice(&authority.bytes);
    d[45] = 1;
    d
}

struct Setup {
    raffle: Raffle,
    escrow: EscrowAccount,
    seller: Key,
}

fn setup(price: u64, allow_fractional: bool) -> Setup {
    let program_id = unique();
    let escrow = escrow_for("raffle1", program_id);
    let seller = unique();
    let ctx = InitializeRaffle {
        seller,
        escrow,
        property_nft_mint: unique(),
        property_token_mint: unique(),
    };
    let raffle = initialize_raffle(
        &ctx,
        "raffle1".to_string(),
        "property1".to_string(),
        price,
        allow_fractional,
    )
    .unwrap();
    Setup { raffle, escrow, seller }
}

fn buy(s: &mut Setup, buyer: Key, token_account: Key, n: u64) -> Result<Option<u64>, RaffleError> {
    let ctx = PurchaseTicket {
        buyer,
        buyer_token_account: token_account,
        buyer_token_data: token_account_data(s.raffle.property_token_mint, buyer, 0),
        escrow: s.escrow,
    };
    purchase_ticket(&mut s.raffle, &ctx, n, 0).map(|p| p.escrow_deposit)
}

fn settle_ctx(s: &Setup, holder: &TicketHolder) -> RefundOrDistribute {
    RefundOrDistribute {
        escrow: s.escrow,
        seller: s.seller,
        holder_account: holder.buyer,
        holder_account_owner: system(),
        holder_token_account: holder.token_account,
        holder_token_data: token_account_data(s.raffle.property_token_mint, holder.buyer, 0),
        property_token_mint_data: mint_data(s.seller),
    }
}

fn settle(s: &mut Setup, holder: &TicketHolder, buyer: Key) -> Result<Settlement, RaffleError> {
    let ctx = settle_ctx(s, holder);
    refund_or_distribute(&mut s.raffle, &ctx, buyer)
}

#[test]
fn test_initialize_raffle_logic() {
    let s = setup(1_000_000, true);
    let raffle = &s.raffle;
    assert_eq!(raffle.raffle_id, "raffle1");
    assert_eq!(raffle.property_id, "property1");
    assert_eq!(raffle.ticket_price_sol, 1_000_000);
    assert_eq!(raffle.total_tickets, 10_000);
    assert_eq!(raffle.tickets_sold, 0);
    assert_eq!(raffle.is_completed, false);
    assert_eq!(raffle.allow_fractional, true);
    assert!(raffle.ticket_holders.is_empty());
}

#[test]
fn lib_test_initialize_raffle_logic() {
    let s = setup(1_000_000, false);
    let raffle = &s.raffle;
    assert_eq!(raffle.raffle_id, "raffle1");
    assert_eq!(raffle.property_id, "property1");
    assert_eq!(raffle.ticket_price_sol, 1_000_000);
    assert_eq!(raffle.total_tickets, 10_000);
    assert_eq!(raffle.tickets_sold, 0);
    assert_eq!(raffle.is_completed, false);
    assert_eq!(raffle.allow_fractional, false);
    assert!(raffle.ticket_holders.is_empty());
}

#[test]
fn test_purchase_ticket_logic() {
    let mut s = setup(1_000_000, false);
    let buyer = unique();
    let num_tickets = 2;
    assert!(!s.raffle.is_completed);
    let deposit = buy(&mut s, buyer, unique(), num_tickets).unwrap();
    assert_eq!(deposit, Some(2_000_000));
    assert_eq!(s.raffle.tickets_sold, num_tickets);
    assert_eq!(s.raffle.ticket_holders.len(), 1);
    assert_eq!(s.raffle.ticket_holders[0].buyer, buyer);
    assert_eq!(s.raffle.ticket_holders[0].num_tickets, num_tickets);
}

#[test]
fn lib_test_purchase_ticket_logic() {
    let mut s = setup(1_000_000, false);
    let buyer = unique();
    let token_account = unique();
    let num_tickets = 2;
    let payment_method = 0;
    let ctx = PurchaseTicket {
        buyer,
        buyer_token_account: token_account,
        buyer_token_data: token_account_data(s.raffle.property_token_mint, buyer, 0),
        escrow: s.escrow,
    };
    let p = purchase_ticket(&mut s.raffle, &ctx, num_tickets, payment_method).unwrap();
    assert_eq!(p.event.raffle_id, "raffle1");
    assert_eq!(p.event.num_tickets, num_tickets);
    assert_eq!(s.raffle.tickets_sold, num_tickets);
    assert_eq!(s.raffle.ticket_holders.len(), 1);
    assert_eq!(s.raffle.ticket_holders[0].buyer, buyer);
    assert_eq!(s.raffle.ticket_holders[0].num_tickets, num_tickets);
    assert_eq!(s.raffle.ticket_holders[0].kyc_verified, true);
    assert_eq!(s.raffle.ticket_holders[0].payment_method, payment_method);
}

#[test]
fn initialize_rejects_foreign_escrow() {
    let ctx = InitializeRaffle {
        seller: unique(),
        escrow: EscrowAccount { program_id: unique(), key: unique(), owner: system() },
        property_nft_mint: unique(),
        property_token_mint: unique(),
    };
    let r = initialize_raffle(&ctx, "raffle1".to_string(), "p".to_string(), 1, false);
    assert_eq!(r.unwrap_err(), RaffleError::InvalidEscrowAccount);
}

#[test]
fn initialize_rejects_escrow_not_owned_by_system_program() {
    let program_id = unique();
    let mut escrow = escrow_for("raffle1", program_id);
    escrow.owner = unique();
    let ctx = InitializeRaffle {
        seller: unique(),
        escrow,
        property_nft_mint: unique(),
        property_token_mint: unique(),
    };
    let r = initialize_raffle(&ctx, "raffle1".to_string(), "p".to_string(), 1, false);
    assert_eq!(r.unwrap_err(), RaffleError::InvalidEscrowAccount);
}

#[test]
fn repeat_purchases_merge_into_one_holder() {
    let mut s = setup(10, false);
    let a = unique();
    let a_tokens = unique();
    let b = unique();
    buy(&mut s, a, a_tokens, 3).unwrap();
    buy(&mut s, b, unique(), 4).unwrap();
    buy(&mut s, a, a_tokens, 5).unwrap();
    assert_eq!(s.raffle.tickets_sold, 12);
    assert_eq!(s.raffle.ticket_holders.len(), 2);
    assert_eq!(s.raffle.ticket_holders[0].buyer, a);
    assert_eq!(s.raffle.ticket_holders[0].num_tickets, 8);
    assert_eq!(s.raffle.ticket_holders[1].num_tickets, 4);
    let sum: u64 = s.raffle.ticket_holders.iter().map(|h| h.num_tickets).sum();
    assert_eq!(sum, s.raffle.tickets_sold);
}

#[test]
fn repeat_purchase_with_other_token_account_is_refused() {
    let mut s = setup(10, false);
    let a = unique();
    buy(&mut s, a, unique(), 3).unwrap();
    let before = s.raffle.clone();
    assert_eq!(buy(&mut s, a, unique(), 1), Err(RaffleError::InvalidHolderTokenAccount));
    assert_eq!(s.raffle.tickets_sold, before.tickets_sold);
    assert_eq!(s.raffle.ticket_holders, before.ticket_holders);
}

#[test]
fn purchase_beyond_capacity_is_refused_and_changes_nothing() {
    let mut s = setup(1, false);
    buy(&mut s, unique(), unique(), 9_999).unwrap();
    let before = s.raffle.clone();
    assert_eq!(buy(&mut s, unique(), unique(), 2), Err(RaffleError::TicketLimitExceeded));
    assert_eq!(s.raffle.tickets_sold, 9_999);
    assert_eq!(s.raffle.ticket_holders, before.ticket_holders);
    assert_eq!(buy(&mut s, unique(), unique(), 1), Ok(Some(1)));
    assert_eq!(s.raffle.tickets_sold, 10_000);
}

#[test]
fn purchase_cost_overflow_is_refused() {
    let mut s = setup(u64::MAX / 2, false);
    assert_eq!(buy(&mut s, unique(), unique(), 3), Err(RaffleError::MathOverflow));
    assert_eq!(s.raffle.tickets_sold, 0);
}

#[test]
fn purchase_checks_the_buyer_token_account() {
    let mut s = setup(1, false);
    let buyer = unique();
    let mut ctx = PurchaseTicket {
        buyer,
        buyer_token_account: unique(),
        buyer_token_data: token_account_data(unique(), buyer, 0),
        escrow: s.escrow,
    };
    assert_eq!(
        purchase_ticket(&mut s.raffle, &ctx, 1, 0).err(),
        Some(RaffleError::InvalidTokenAccountMint)
    );
    ctx.buyer_token_data = token_account_data(s.raffle.property_token_mint, unique(), 0);
    assert_eq!(
        purchase_ticket(&mut s.raffle, &ctx, 1, 0).err(),
        Some(RaffleError::InvalidTokenAccountOwner)
    );
    ctx.buyer_token_data = vec![0u8; 10];
    assert_eq!(
        purchase_ticket(&mut s.raffle, &ctx, 1, 0).err(),
        Some(RaffleError::InvalidAccountData)
    );
    let mut uninitialized = token_account_data(s.raffle.property_token_mint, buyer, 0);
    uninitialized[108] = 0;
    ctx.buyer_token_data = uninitialized;
    assert_eq!(
        purchase_ticket(&mut s.raffle, &ctx, 1, 0).err(),
        Some(RaffleError::InvalidAccountData)
    );
    ctx.escrow.key = unique();
    ctx.buyer_token_data = token_account_data(s.raffle.property_token_mint, buyer, 0);
    assert_eq!(
        purchase_ticket(&mut s.raffle, &ctx, 1, 0).err(),
        Some(RaffleError::InvalidEscrowAccount)
    );
    assert_eq!(s.raffle.tickets_sold, 0);
}

#[test]
fn off_chain_payment_deposits_nothing() {
    let mut s = setup(7, false);
    let buyer = unique();
    let ctx = PurchaseTicket {
        buyer,
        buyer_token_account: unique(),
        buyer_token_data: token_account_data(s.raffle.property_token_mint, buyer, 0),
        escrow: s.escrow,
    };
    let p = purchase_ticket(&mut s.raffle, &ctx, 3, 1).unwrap();
    assert_eq!(p.escrow_deposit, None);
    assert_eq!(p.event.payment_method, 1);
    assert_eq!(s.raffle.ticket_holders[0].payment_method, 1);
}

#[test]
fn unverified_holder_cannot_buy_again() {
    let mut s = setup(1, false);
    let buyer = unique();
    let token_account = unique();
    buy(&mut s, buyer, token_account, 1).unwrap();
    s.raffle.ticket_holders[0].kyc_verified = false;
    assert_eq!(buy(&mut s, buyer, token_account, 1), Err(RaffleError::KycNotVerified));
}

#[test]
fn fractional_policy_is_set_by_the_seller_before_sales() {
    let mut s = setup(1, false);
    let other = SetFractionalOption { seller: unique() };
    assert_eq!(set_fractional_option(&mut s.raffle, &other, true), Err(RaffleError::InvalidSeller));
    let seller = SetFractionalOption { seller: s.seller };
    assert_eq!(set_fractional_option(&mut s.raffle, &seller, true), Ok(()));
    assert!(s.raffle.allow_fractional);
    buy(&mut s, unique(), unique(), 1).unwrap();
    assert_eq!(
        set_fractional_option(&mut s.raffle, &seller, false),
        Err(RaffleError::TicketsAlreadySold)
    );
    assert!(s.raffle.allow_fractional);
}

fn sold_out(price: u64) -> (Setup, Vec<Key>) {
    let mut s = setup(price, false);
    let buyers = vec![unique(), unique(), unique()];
    buy(&mut s, buyers[0], unique(), 3_000).unwrap();
    buy(&mut s, buyers[1], unique(), 4_000).unwrap();
    buy(&mut s, buyers[2], unique(), 3_000).unwrap();
    (s, buyers)
}

#[test]
fn randomness_is_requested_only_for_a_sold_out_raffle() {
    let mut s = setup(1, false);
    let ctx = RequestRandomness { escrow: s.escrow };
    buy(&mut s, unique(), unique(), 10).unwrap();
    assert_eq!(request_randomness(&s.raffle, &ctx), Err(RaffleError::NotEnoughTickets));
    let (full, _) = sold_out(1);
    let ctx = RequestRandomness { escrow: full.escrow };
    assert_eq!(request_randomness(&full.raffle, &ctx), Ok(()));
}

#[test]
fn fulfill_selects_the_owner_of_the_drawn_ticket_once() {
    let (mut s, buyers) = sold_out(1);
    let closed = fulfill_randomness(&mut s.raffle, 10_000 + 5_000).unwrap();
    assert!(closed.is_full_sale);
    assert_eq!(closed.winner, Some(buyers[1]));
    assert_eq!(s.raffle.winner, Some(buyers[1]));
    assert_eq!(s.raffle.random_value, Some(15_000));
    assert!(s.raffle.is_completed);
    assert_eq!(fulfill_randomness(&mut s.raffle, 1).err(), Some(RaffleError::RaffleCompleted));
    assert_eq!(s.raffle.winner, Some(buyers[1]));
    assert_eq!(s.raffle.random_value, Some(15_000));
    assert_eq!(buy(&mut s, unique(), unique(), 1), Err(RaffleError::RaffleCompleted));
}

#[test]
fn fulfill_requires_a_sold_out_raffle() {
    let mut s = setup(1, false);
    buy(&mut s, unique(), unique(), 10).unwrap();
    assert_eq!(fulfill_randomness(&mut s.raffle, 3).err(), Some(RaffleError::NotEnoughTickets));
    assert_eq!(s.raffle.random_value, None);
    assert!(!s.raffle.is_completed);
}

#[test]
fn direct_closure_is_for_undersold_raffles() {
    let (mut full, _) = sold_out(1);
    let ctx = CloseRaffle { escrow: full.escrow };
    assert_eq!(close_raffle(&mut full.raffle, &ctx).err(), Some(RaffleError::UseFulfillRandomness));
    assert!(!full.raffle.is_completed);

    let mut s = setup(1, false);
    buy(&mut s, unique(), unique(), 10).unwrap();
    let ctx = CloseRaffle { escrow: s.escrow };
    let closed = close_raffle(&mut s.raffle, &ctx).unwrap();
    assert!(!closed.is_full_sale);
    assert_eq!(closed.winner, None);
    assert!(s.raffle.is_completed);
    assert_eq!(close_raffle(&mut s.raffle, &ctx).err(), Some(RaffleError::RaffleCompleted));
}

#[test]
fn refund_settlement_drains_each_holder_once() {
    let mut s = setup(250, false);
    let a = unique();
    let b = unique();
    buy(&mut s, a, unique(), 4).unwrap();
    buy(&mut s, b, unique(), 6).unwrap();
    let no_mint = ProcessPayoutFractionalNoMint { escrow: s.escrow, charity_account_owner: system() };
    let close = CloseRaffle { escrow: s.escrow };
    let holder_a = s.raffle.ticket_holders[0];
    let holder_b = s.raffle.ticket_holders[1];
    assert_eq!(
        settle(&mut s, &holder_a, a).err(),
        Some(RaffleError::RaffleNotClosed)
    );
    close_raffle(&mut s.raffle, &close).unwrap();

    assert_eq!(
        process_payout_fractional_no_mint(&mut s.raffle, &no_mint).err(),
        Some(RaffleError::TicketHoldersNotProcessed)
    );
    let settled = settle(&mut s, &holder_a, a).unwrap();
    assert_eq!(settled.holder, holder_a);
    assert_eq!(settled.event.refunded_amount, Some(1_000));
    assert_eq!(settled.event.tokens_minted, None);
    assert_eq!(settled.escrow_refund, Some(1_000));
    assert_eq!(s.raffle.ticket_holders.len(), 1);
    assert_eq!(s.raffle.tickets_sold, 10);
    assert_eq!(
        settle(&mut s, &holder_a, a).err(),
        Some(RaffleError::NoTicketHolders)
    );
    assert_eq!(
        process_payout_fractional_no_mint(&mut s.raffle, &no_mint).err(),
        Some(RaffleError::TicketHoldersNotProcessed)
    );
    settle(&mut s, &holder_b, b).unwrap();
    assert!(s.raffle.ticket_holders.is_empty());

    let with_mint = ProcessPayoutFractionalWithMint {
        escrow: s.escrow,
        seller: s.seller,
        seller_token_data: token_account_data(s.raffle.property_token_mint, s.seller, 0),
        charity_account_owner: system(),
        property_token_mint_data: mint_data(s.seller),
    };
    assert_eq!(
        process_payout_fractional_with_mint(&mut s.raffle, &with_mint).err(),
        Some(RaffleError::FractionalOwnershipNotAllowed)
    );
    let payout = process_payout_fractional_no_mint(&mut s.raffle, &no_mint).unwrap();
    assert_eq!(payout.seller_payout, 2_250);
    assert_eq!(payout.platform_revenue, 250);
    assert_eq!(payout.charity_contribution, 25);
    assert!(s.raffle.payout_processed);
    assert_eq!(
        process_payout_fractional_no_mint(&mut s.raffle, &no_mint).err(),
        Some(RaffleError::PayoutAlreadyProcessed)
    );
}

#[test]
fn settlement_checks_bindings() {
    let mut s = setup(1, false);
    let a = unique();
    buy(&mut s, a, unique(), 4).unwrap();
    close_raffle(&mut s.raffle, &CloseRaffle { escrow: s.escrow }).unwrap();
    let holder = s.raffle.ticket_holders[0];

    let mut ctx = settle_ctx(&s, &holder);
    ctx.holder_token_account = unique();
    assert_eq!(
        refund_or_distribute(&mut s.raffle, &ctx, a).err(),
        Some(RaffleError::InvalidHolderTokenAccount)
    );
    let mut ctx = settle_ctx(&s, &holder);
    ctx.holder_account_owner = unique();
    assert_eq!(
        refund_or_distribute(&mut s.raffle, &ctx, a).err(),
        Some(RaffleError::InvalidHolderAccount)
    );
    let ctx = settle_ctx(&s, &holder);
    assert_eq!(
        refund_or_distribute(&mut s.raffle, &ctx, unique()).err(),
        Some(RaffleError::NoTicketHolders)
    );
    assert_eq!(s.raffle.ticket_holders.len(), 1);
}

#[test]
fn fractional_settlement_stays_within_supply() {
    let mut s = setup(1, true);
    let a = unique();
    let b = unique();
    buy(&mut s, a, unique(), 60).unwrap();
    buy(&mut s, b, unique(), 40).unwrap();
    close_raffle(&mut s.raffle, &CloseRaffle { escrow: s.escrow }).unwrap();
    let holder_a = s.raffle.ticket_holders[0];
    let holder_b = s.raffle.ticket_holders[1];
    let first = settle(&mut s, &holder_b, b).unwrap();
    assert_eq!(first.event.tokens_minted, Some(4_000));
    assert_eq!(first.event.refunded_amount, None);
    assert_eq!(first.escrow_refund, None);
    let second = settle(&mut s, &holder_a, a).unwrap();
    assert_eq!(second.event.tokens_minted, Some(6_000));

    let ctx = ProcessPayoutFractionalWithMint {
        escrow: s.escrow,
        seller: s.seller,
        seller_token_data: token_account_data(s.raffle.property_token_mint, s.seller, 0),
        charity_account_owner: system(),
        property_token_mint_data: mint_data(s.seller),
    };
    let payout = process_payout_fractional_with_mint(&mut s.raffle, &ctx).unwrap();
    assert_eq!(payout.seller_tokens, 990_000);
    assert_eq!(payout.event.seller_payout, 90);
    assert_eq!(payout.event.platform_revenue, 10);
    assert_eq!(payout.event.charity_contribution, 1);
    assert_eq!(4_000 + 6_000 + payout.seller_tokens, 1_000_000);
    assert_eq!(
        process_payout_fractional(&mut s.raffle, &ctx).err(),
        Some(RaffleError::PayoutAlreadyProcessed)
    );
    assert_eq!(
        process_payout_fractional_with_mint(&mut s.raffle, &ctx).err(),
        Some(RaffleError::PayoutAlreadyProcessed)
    );
    let no_mint = ProcessPayoutFractionalNoMint { escrow: s.escrow, charity_account_owner: system() };
    assert_eq!(
        process_payout_fractional_no_mint(&mut s.raffle, &no_mint).err(),
        Some(RaffleError::PayoutAlreadyProcessed)
    );
}

fn full_sale_ctx(s: &Setup) -> ProcessPayoutFullSale {
    ProcessPayoutFullSale {
        escrow: s.escrow,
        escrow_lamports: 1,
        seller: s.seller,
        charity_account_owner: system(),
        property_nft_account_data: token_account_data(s.raffle.property_nft_mint, s.seller, 1),
        winner_nft_account_data: token_account_data(
            s.raffle.property_nft_mint,
            s.raffle.winner.unwrap_or_else(unique),
            0,
        ),
    }
}

#[test]
fn full_sale_payout_splits_proceeds() {
    let (mut s, _) = sold_out(100);
    let ctx = full_sale_ctx(&s);
    assert_eq!(
        process_payout_full_sale(&mut s.raffle, &ctx, true).err(),
        Some(RaffleError::RaffleNotClosed)
    );
    fulfill_randomness(&mut s.raffle, 42).unwrap();
    let ctx = full_sale_ctx(&s);
    let payout = process_payout_full_sale(&mut s.raffle, &ctx, true).unwrap();
    assert_eq!(payout.raffle_id, "raffle1");
    assert_eq!(payout.seller_payout, 900_000);
    assert_eq!(payout.platform_revenue, 100_000);
    assert_eq!(payout.charity_contribution, 10_000);
}

#[test]
fn full_sale_payout_needs_confirmation_and_winner() {
    let (mut s, _) = sold_out(100);
    fulfill_randomness(&mut s.raffle, 42).unwrap();
    let ctx = full_sale_ctx(&s);
    assert_eq!(
        process_payout_full_sale(&mut s.raffle, &ctx, false).err(),
        Some(RaffleError::PropertyTransferNotConfirmed)
    );
    let mut no_winner = s.raffle.clone();
    no_winner.winner = None;
    assert_eq!(
        process_payout_full_sale(&mut no_winner, &ctx, true).err(),
        Some(RaffleError::NoWinner)
    );
}

#[test]
fn full_sale_payout_checks_the_property_token() {
    let (mut s, _) = sold_out(100);
    fulfill_randomness(&mut s.raffle, 42).unwrap();
    let mut ctx = full_sale_ctx(&s);
    ctx.property_nft_account_data = token_account_data(s.raffle.property_nft_mint, s.seller, 0);
    assert_eq!(
        process_payout_full_sale(&mut s.raffle, &ctx, true).err(),
        Some(RaffleError::InvalidTokenAccountAmount)
    );
    let mut ctx = full_sale_ctx(&s);
    ctx.winner_nft_account_data = token_account_data(unique(), unique(), 0);
    assert_eq!(
        process_payout_full_sale(&mut s.raffle, &ctx, true).err(),
        Some(RaffleError::InvalidTokenAccountMint)
    );
    let mut ctx = full_sale_ctx(&s);
    ctx.escrow_lamports = 0;
    assert_eq!(
        process_payout_full_sale(&mut s.raffle, &ctx, true).err(),
        Some(RaffleError::InvalidEscrowAccount)
    );
    let mut ctx = full_sale_ctx(&s);
    ctx.charity_account_owner = unique();
    assert_eq!(
        process_payout_full_sale(&mut s.raffle, &ctx, true).err(),
        Some(RaffleError::InvalidCharityAccount)
    );
}

#[test]
fn partial_sale_is_not_paid_as_full_sale() {
    let mut s = setup(1, false);
    buy(&mut s, unique(), unique(), 5).unwrap();
    close_raffle(&mut s.raffle, &CloseRaffle { escrow: s.escrow }).unwrap();
    let ctx = full_sale_ctx(&s);
    assert_eq!(
        process_payout_full_sale(&mut s.raffle, &ctx, true).err(),
        Some(RaffleError::NotFullSale)
    );
}

#[test]
fn phases_follow_the_lifecycle() {
    let mut s = setup(1, false);
    assert_eq!(s.raffle.phase(), RafflePhase::Open);
    buy(&mut s, unique(), unique(), 10).unwrap();
    assert_eq!(s.raffle.phase(), RafflePhase::Open);
    close_raffle(&mut s.raffle, &CloseRaffle { escrow: s.escrow }).unwrap();
    assert_eq!(s.raffle.phase(), RafflePhase::CompletedPartial);

    let (mut full, _) = sold_out(1);
    assert_eq!(full.raffle.phase(), RafflePhase::AwaitingRandomness);
    fulfill_randomness(&mut full.raffle, 7).unwrap();
    assert_eq!(full.raffle.phase(), RafflePhase::CompletedFull);
}

#[test]
fn stored_state_is_checked_against_the_invariant() {
    let mut s = setup(1, false);
    let a = unique();
    buy(&mut s, a, unique(), 3).unwrap();
    buy(&mut s, unique(), unique(), 2).unwrap();
    assert!(s.raffle.is_well_formed());

    let mut unbalanced = s.raffle.clone();
    unbalanced.tickets_sold = 4;
    assert!(!unbalanced.is_well_formed());

    let mut duplicated = s.raffle.clone();
    duplicated.ticket_holders[1].buyer = a;
    assert!(!duplicated.is_well_formed());

    let mut early_winner = s.raffle.clone();
    early_winner.winner = Some(a);
    assert!(!early_winner.is_well_formed());

    let mut paid_early = s.raffle.clone();
    paid_early.payout_processed = true;
    assert!(!paid_early.is_well_formed());

    let mut zero_count = s.raffle.clone();
    zero_count.ticket_holders[1].num_tickets = 0;
    zero_count.tickets_sold = 3;
    assert!(!zero_count.is_well_formed());

    let mut over_capacity = s.raffle.clone();
    over_capacity.total_tickets = 4;
    assert!(!over_capacity.is_well_formed());

    let (mut full, _) = sold_out(1);
    fulfill_randomness(&mut full.raffle, 7).unwrap();
    assert!(full.raffle.is_well_formed());
}

#[test]
fn full_sale_pays_out_once() {
    let (mut s, _) = sold_out(100);
    fulfill_randomness(&mut s.raffle, 42).unwrap();
    let ctx = full_sale_ctx(&s);
    assert!(process_payout_full_sale(&mut s.raffle, &ctx, true).is_ok());
    assert!(s.raffle.payout_processed);
    assert_eq!(
        process_payout_full_sale(&mut s.raffle, &ctx, true).err(),
        Some(RaffleError::PayoutAlreadyProcessed)
    );
}

#[test]
fn full_sale_property_goes_only_to_the_winner() {
    let (mut s, _) = sold_out(100);
    fulfill_randomness(&mut s.raffle, 42).unwrap();
    let mut ctx = full_sale_ctx(&s);
    ctx.winner_nft_account_data = token_account_data(s.raffle.property_nft_mint, unique(), 0);
    assert_eq!(
        process_payout_full_sale(&mut s.raffle, &ctx, true).err(),
        Some(RaffleError::InvalidTokenAccountOwner)
    );
    assert!(!s.raffle.payout_processed);
}

#[test]
fn zero_ticket_purchase_is_refused() {
    let mut s = setup(1, false);
    assert_eq!(buy(&mut s, unique(), unique(), 0), Err(RaffleError::InvalidTicketCount));
    assert!(s.raffle.ticket_holders.is_empty());
    assert_eq!(s.raffle.tickets_sold, 0);
}

#[test]
fn refund_settlement_needs_no_mint_authority() {
    let mut s = setup(5, false);
    let a = unique();
    buy(&mut s, a, unique(), 2).unwrap();
    close_raffle(&mut s.raffle, &CloseRaffle { escrow: s.escrow }).unwrap();
    let holder = s.raffle.ticket_holders[0];
    let mut ctx = settle_ctx(&s, &holder);
    ctx.property_token_mint_data = vec![0u8; 3];
    let settled = refund_or_distribute(&mut s.raffle, &ctx, a).unwrap();
    assert_eq!(settled.event.refunded_amount, Some(10));
}

#[test]
fn minting_settlement_needs_the_mint_authority() {
    let mut s = setup(5, true);
    let a = unique();
    buy(&mut s, a, unique(), 2).unwrap();
    close_raffle(&mut s.raffle, &CloseRaffle { escrow: s.escrow }).unwrap();
    let holder = s.raffle.ticket_holders[0];
    let mut ctx = settle_ctx(&s, &holder);
    ctx.property_token_mint_data = mint_data(unique());
    assert_eq!(
        refund_or_distribute(&mut s.raffle, &ctx, a).err(),
        Some(RaffleError::InvalidMintAuthority)
    );
    ctx.property_token_mint_data = vec![0u8; 3];
    assert_eq!(
        refund_or_distribute(&mut s.raffle, &ctx, a).err(),
        Some(RaffleError::InvalidAccountData)
    );
    assert_eq!(s.raffle.ticket_holders.len(), 1);
}

#[test]
fn fractional_raffle_is_not_paid_without_minting() {
    let mut s = setup(1, true);
    let a = unique();
    buy(&mut s, a, unique(), 2).unwrap();
    close_raffle(&mut s.raffle, &CloseRaffle { escrow: s.escrow }).unwrap();
    let holder = s.raffle.ticket_holders[0];
    settle(&mut s, &holder, a).unwrap();
    let no_mint = ProcessPayoutFractionalNoMint { escrow: s.escrow, charity_account_owner: system() };
    assert_eq!(
        process_payout_fractional_no_mint(&mut s.raffle, &no_mint).err(),
        Some(RaffleError::FractionalOwnershipAllowed)
    );
    assert!(!s.raffle.payout_processed);
}
