use vstd::prelude::*;

verus! {

/// Typed rejection conditions. Every error maps one-to-one to a violated
/// precondition of a transition; none is transient, and a rejected transition
/// leaves every piece of state it was handed unchanged.
#[derive(Clone, Copy, Debug, PartialEq, Eq, Structural)]
pub enum ErrorCode {
    /// `close_auction` was called by an identity other than the record's authority.
    ProxyClose,
    /// `bid` was called before the decay window opened.
    AuctionEarly,
    /// `bid` was called after the decay window closed.
    AuctionLate,
    /// `initialize_auction` was called with `starting_time >= ending_time`.
    InvalidDateRange,
    /// `initialize_auction` was called with a starting time already in the past.
    InvalidStartDate,
    /// `bid` declared a seller identity that does not match the record's authority.
    MismatchedOwners,
    /// The operation referenced a record that is absent (never created, or
    /// already consumed by a winning terminal transition).
    AuctionNotFound,
    /// `initialize_auction` found a live record already occupying the
    /// seller's slot: one live auction per seller identity at a time.
    AuctionExists,
    /// A balance was too small to cover the requested transfer.
    InsufficientFunds,
}

impl ErrorCode {
    /// A short human-readable description of the rejection.
    pub fn message(&self) -> &'static str {
        match self {
            ErrorCode::ProxyClose => "Close auction can only be called by the auction authority",
            ErrorCode::AuctionEarly => "Auction has not yet begun",
            ErrorCode::AuctionLate => "Auction has concluded",
            ErrorCode::InvalidDateRange => "Start date must occur before end date",
            ErrorCode::InvalidStartDate => "Start date must occur in the future",
            ErrorCode::MismatchedOwners => "Auction owner must match auction authority",
            ErrorCode::AuctionNotFound => "No live auction record exists",
            ErrorCode::AuctionExists => "A live auction record already exists for this seller",
            ErrorCode::InsufficientFunds => "Balance is too small to cover the transfer",
        }
    }
}

} // verus!
