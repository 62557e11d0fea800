use dutch::error::ErrorCode;
use dutch::machine::{
    bid, close_auction, initialize_auction, AuctionSlot, Bid, CloseAuction, InitializeAuction,
};
use dutch::pubkey::Pubkey;

fn seller() -> Pubkey {
    Pubkey::new([1u8; 32])
}

fn buyer() -> Pubkey {
    Pubkey::new([2u8; 32])
}

fn stranger() -> Pubkey {
    Pubkey::new([3u8; 32])
}

fn live_slot(start_price: u32, starting_time: i64, ending_time: i64, amount: u64) -> AuctionSlot {
    let mut slot = AuctionSlot::new();
    let mut init = InitializeAuction {
        authority: seller(),
        holder_token_account: amount,
    };
    let r = initialize_auction(
        &mut slot,
        &mut init,
        starting_time,
        starting_time,
        ending_time,
        start_price,
        amount,
        255,
    );
    assert_eq!(r, Ok(()));
    slot
}

fn standard_bid_accounts() -> Bid {
    Bid {
        authority: buyer(),
        authority_lamports: 10_000,
        bidder_token_account: 0,
        auction_owner: seller(),
        auction_owner_lamports: 500,
    }
}

#[test]
fn initialize_moves_quantity_into_escrow() {
    let mut slot = AuctionSlot::new();
    let mut init = InitializeAuction {
        authority: seller(),
        holder_token_account: 10,
    };
    let r = initialize_auction(&mut slot, &mut init, 0, 100, 1_100, 1_000, 4, 255);
    assert_eq!(r, Ok(()));
    assert_eq!(init.holder_token_account, 6);
    assert_eq!(slot.escrow_token_account, 4);
    let rec = slot.record.expect("record must be live");
    assert_eq!(rec.authority.0, seller().0);
    assert_eq!(rec.amount, 4);
    assert_eq!(rec.starting_price, 1_000);
    assert_eq!(rec.starting_time, 100);
    assert_eq!(rec.ending_time, 1_100);
    assert_eq!(rec.bump, 255);
}

#[test]
fn initialize_rejects_equal_window_before_any_funds_move() {
    let mut slot = AuctionSlot::new();
    let mut init = InitializeAuction {
        authority: seller(),
        holder_token_account: 10,
    };
    let r = initialize_auction(&mut slot, &mut init, 0, 500, 500, 1_000, 1, 255);
    assert_eq!(r, Err(ErrorCode::InvalidDateRange));
    assert_eq!(init.holder_token_account, 10);
    assert!(slot.record.is_none());
    assert_eq!(slot.escrow_token_account, 0);
}

#[test]
fn initialize_rejects_inverted_window() {
    let mut slot = AuctionSlot::new();
    let mut init = InitializeAuction {
        authority: seller(),
        holder_token_account: 10,
    };
    let r = initialize_auction(&mut slot, &mut init, 0, 500, 400, 1_000, 1, 255);
    assert_eq!(r, Err(ErrorCode::InvalidDateRange));
    assert_eq!(init.holder_token_account, 10);
}

#[test]
fn initialize_rejects_start_in_the_past() {
    let mut slot = AuctionSlot::new();
    let mut init = InitializeAuction {
        authority: seller(),
        holder_token_account: 10,
    };
    let r = initialize_auction(&mut slot, &mut init, 501, 500, 1_500, 1_000, 1, 255);
    assert_eq!(r, Err(ErrorCode::InvalidStartDate));
    assert_eq!(init.holder_token_account, 10);
    assert!(slot.record.is_none());
}

#[test]
fn initialize_rejects_insufficient_holding_balance() {
    let mut slot = AuctionSlot::new();
    let mut init = InitializeAuction {
        authority: seller(),
        holder_token_account: 3,
    };
    let r = initialize_auction(&mut slot, &mut init, 0, 100, 200, 1_000, 4, 255);
    assert_eq!(r, Err(ErrorCode::InsufficientFunds));
    assert_eq!(init.holder_token_account, 3);
    assert!(slot.record.is_none());
}

#[test]
fn initialize_rejects_second_live_auction() {
    let mut slot = live_slot(1_000, 0, 1_000, 1);
    let mut init = InitializeAuction {
        authority: seller(),
        holder_token_account: 50,
    };
    let r = initialize_auction(&mut slot, &mut init, 0, 10, 20, 5, 1, 255);
    assert_eq!(r, Err(ErrorCode::AuctionExists));
    assert_eq!(init.holder_token_account, 50);
    assert!(slot.record.is_some());
    assert_eq!(slot.escrow_token_account, 1);
}

#[test]
fn bid_early_fails_and_leaves_state_unchanged() {
    let mut slot = live_slot(1_000, 100, 1_100, 2);
    let mut accounts = standard_bid_accounts();
    let r = bid(&mut slot, &mut accounts, 99);
    assert_eq!(r, Err(ErrorCode::AuctionEarly));
    assert!(slot.record.is_some());
    assert_eq!(slot.escrow_token_account, 2);
    assert_eq!(accounts.authority_lamports, 10_000);
    assert_eq!(accounts.bidder_token_account, 0);
    assert_eq!(accounts.auction_owner_lamports, 500);
}

#[test]
fn bid_late_fails_and_leaves_state_unchanged() {
    let mut slot = live_slot(1_000, 100, 1_100, 2);
    let mut accounts = standard_bid_accounts();
    let r = bid(&mut slot, &mut accounts, 1_101);
    assert_eq!(r, Err(ErrorCode::AuctionLate));
    assert!(slot.record.is_some());
    assert_eq!(slot.escrow_token_account, 2);
    assert_eq!(accounts.authority_lamports, 10_000);
    assert_eq!(accounts.bidder_token_account, 0);
}

#[test]
fn bid_with_mismatched_owner_fails() {
    let mut slot = live_slot(1_000, 0, 1_000, 1);
    let mut accounts = standard_bid_accounts();
    accounts.auction_owner = stranger();
    let r = bid(&mut slot, &mut accounts, 500);
    assert_eq!(r, Err(ErrorCode::MismatchedOwners));
    assert!(slot.record.is_some());
    assert_eq!(accounts.authority_lamports, 10_000);
    assert_eq!(accounts.bidder_token_account, 0);
}

#[test]
fn bid_with_insufficient_lamports_fails() {
    let mut slot = live_slot(1_000, 0, 1_000, 1);
    let mut accounts = standard_bid_accounts();
    accounts.authority_lamports = 499;
    let r = bid(&mut slot, &mut accounts, 500);
    assert_eq!(r, Err(ErrorCode::InsufficientFunds));
    assert!(slot.record.is_some());
    assert_eq!(accounts.authority_lamports, 499);
}

#[test]
fn bid_at_midpoint_settles_at_half_price() {
    let mut slot = live_slot(1_000, 0, 1_000, 1);
    let mut accounts = standard_bid_accounts();
    let r = bid(&mut slot, &mut accounts, 500);
    assert_eq!(r, Ok(()));
    assert_eq!(accounts.authority_lamports, 10_000 - 500);
    assert_eq!(accounts.auction_owner_lamports, 500 + 500);
    assert_eq!(accounts.bidder_token_account, 1);
    assert!(slot.record.is_none());
    assert_eq!(slot.escrow_token_account, 0);
}

#[test]
fn bid_one_second_before_close_settles_at_one() {
    let mut slot = live_slot(1_000, 0, 1_000, 1);
    let mut accounts = standard_bid_accounts();
    let r = bid(&mut slot, &mut accounts, 999);
    assert_eq!(r, Ok(()));
    assert_eq!(accounts.authority_lamports, 10_000 - 1);
    assert_eq!(accounts.auction_owner_lamports, 500 + 1);
}

#[test]
fn bid_exactly_at_end_time_succeeds_for_free() {
    let mut slot = live_slot(1_000, 0, 1_000, 1);
    let mut accounts = standard_bid_accounts();
    let r = bid(&mut slot, &mut accounts, 1_000);
    assert_eq!(r, Ok(()));
    assert_eq!(accounts.authority_lamports, 10_000);
    assert_eq!(accounts.auction_owner_lamports, 500);
    assert_eq!(accounts.bidder_token_account, 1);
    assert!(slot.record.is_none());
}

#[test]
fn second_bid_against_settled_record_fails_not_found() {
    let mut slot = live_slot(1_000, 0, 1_000, 1);
    let mut first = standard_bid_accounts();
    assert_eq!(bid(&mut slot, &mut first, 500), Ok(()));
    let mut second = standard_bid_accounts();
    let r = bid(&mut slot, &mut second, 501);
    assert_eq!(r, Err(ErrorCode::AuctionNotFound));
    assert_eq!(second.authority_lamports, 10_000);
    assert_eq!(second.bidder_token_account, 0);
    assert!(slot.record.is_none());
}

#[test]
fn cancel_after_settlement_fails_not_found() {
    let mut slot = live_slot(1_000, 0, 1_000, 1);
    let mut accounts = standard_bid_accounts();
    assert_eq!(bid(&mut slot, &mut accounts, 500), Ok(()));
    let mut cancel = CloseAuction {
        authority: seller(),
        holder_token_account: 0,
    };
    let r = close_auction(&mut slot, &mut cancel);
    assert_eq!(r, Err(ErrorCode::AuctionNotFound));
    assert_eq!(cancel.holder_token_account, 0);
}

#[test]
fn bid_after_cancellation_fails_not_found() {
    let mut slot = live_slot(1_000, 0, 1_000, 1);
    let mut cancel = CloseAuction {
        authority: seller(),
        holder_token_account: 0,
    };
    assert_eq!(close_auction(&mut slot, &mut cancel), Ok(()));
    let mut accounts = standard_bid_accounts();
    let r = bid(&mut slot, &mut accounts, 500);
    assert_eq!(r, Err(ErrorCode::AuctionNotFound));
    assert_eq!(accounts.authority_lamports, 10_000);
}

#[test]
fn cancel_by_stranger_fails_proxy_close() {
    let mut slot = live_slot(1_000, 0, 1_000, 2);
    let mut cancel = CloseAuction {
        authority: stranger(),
        holder_token_account: 7,
    };
    let r = close_auction(&mut slot, &mut cancel);
    assert_eq!(r, Err(ErrorCode::ProxyClose));
    assert_eq!(cancel.holder_token_account, 7);
    assert!(slot.record.is_some());
    assert_eq!(slot.escrow_token_account, 2);
}

#[test]
fn initialize_then_cancel_restores_holding_balance() {
    let mut slot = AuctionSlot::new();
    let mut init = InitializeAuction {
        authority: seller(),
        holder_token_account: 10,
    };
    let r = initialize_auction(&mut slot, &mut init, 0, 100, 1_100, 1_000, 4, 255);
    assert_eq!(r, Ok(()));
    assert_eq!(init.holder_token_account, 6);
    let mut cancel = CloseAuction {
        authority: seller(),
        holder_token_account: init.holder_token_account,
    };
    assert_eq!(close_auction(&mut slot, &mut cancel), Ok(()));
    assert_eq!(cancel.holder_token_account, 10);
    assert!(slot.record.is_none());
    assert_eq!(slot.escrow_token_account, 0);
}

#[test]
fn cancel_needs_no_time_window() {
    // `close_auction` takes no clock reading at all: an auction that never
    // sold can be reclaimed whether the window is ahead, open, or long past.
    let mut slot = live_slot(1_000, 100, 1_100, 2);
    let mut cancel = CloseAuction {
        authority: seller(),
        holder_token_account: 0,
    };
    assert_eq!(close_auction(&mut slot, &mut cancel), Ok(()));
    assert_eq!(cancel.holder_token_account, 2);
    assert_eq!(slot.escrow_token_account, 0);
}

#[test]
fn error_messages_match_their_conditions() {
    assert_eq!(
        ErrorCode::ProxyClose.message(),
        "Close auction can only be called by the auction authority"
    );
    assert_eq!(ErrorCode::AuctionEarly.message(), "Auction has not yet begun");
    assert_eq!(ErrorCode::AuctionLate.message(), "Auction has concluded");
    assert_eq!(
        ErrorCode::InvalidDateRange.message(),
        "Start date must occur before end date"
    );
    assert_eq!(
        ErrorCode::InvalidStartDate.message(),
        "Start date must occur in the future"
    );
    assert_eq!(
        ErrorCode::MismatchedOwners.message(),
        "Auction owner must match auction authority"
    );
}
