use vstd::prelude::*;

verus! {

/// Why an operation on a raffle was refused. A refused operation changes nothing.
#[derive(Clone, Copy, Debug, PartialEq, Eq, Structural)]
pub enum RaffleError {
    RaffleCompleted,
    NotEnoughTickets,
    TicketLimitExceeded,
    NoWinner,
    PropertyTransferNotConfirmed,
    MathOverflow,
    RaffleNotClosed,
    NoTicketHolders,
    UseFulfillRandomness,
    InvalidHolderAccount,
    InvalidHolderTokenAccount,
    TicketHoldersNotProcessed,
    NotFullSale,
    FullSale,
    FractionalOwnershipAllowed,
    FractionalOwnershipNotAllowed,
    InvalidMintAuthority,
    InvalidTokenAccountOwner,
    InvalidTokenAccountMint,
    InvalidTokenAccountAmount,
    InvalidEscrowAccount,
    InvalidCharityAccount,
    KycNotVerified,
    InvalidAccountData,
    InvalidSeller,
    TicketsAlreadySold,
    InvalidRaffleState,
    InvalidTicketCount,
    PayoutAlreadyProcessed,
}

} // verus!
