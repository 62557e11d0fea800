use crate::account::AuctionAccount;
use crate::error::ErrorCode;
use crate::price::{current_price, price_spec};
use crate::pubkey::Pubkey;
use vstd::prelude::*;

verus! {

/// The record slot for one seller identity, together with the escrow custody
/// balance bound to it. The record's identifier is a deterministic function
/// of the seller identity alone, so each seller owns exactly one slot; the
/// slot is `absent` (no record, empty escrow) or `live` (record present,
/// escrow holding exactly the locked quantity), and the two are created and
/// destroyed together — never one without the other.
#[derive(Clone, Copy, Debug)]
pub struct AuctionSlot {
    /// The persisted record, or `None` while the slot is absent.
    pub record: Option<AuctionAccount>,
    /// Asset balance held under the record's authorization (not the seller's).
    pub escrow_token_account: u64,
}

/// Accounts touched by `initialize_auction`: the seller and the holding
/// balance the locked quantity is drawn from.
#[derive(Clone, Copy, Debug)]
pub struct InitializeAuction {
    /// The prospective seller; the host has verified this caller's signature.
    pub authority: Pubkey,
    /// The seller's asset balance that funds the escrow.
    pub holder_token_account: u64,
}

/// Accounts touched by `close_auction`: the caller and the holding balance
/// the escrowed quantity is returned to.
#[derive(Clone, Copy, Debug)]
pub struct CloseAuction {
    /// The caller; cancellation is permitted only to the record's authority.
    pub authority: Pubkey,
    /// The seller's asset balance that receives the reclaimed quantity.
    pub holder_token_account: u64,
}

/// Accounts touched by `bid`: the buyer with both of its balances, and the
/// declared seller with the settlement balance the price is paid into.
#[derive(Clone, Copy, Debug)]
pub struct Bid {
    /// The buyer; the host has verified this caller's signature.
    pub authority: Pubkey,
    /// The buyer's settlement-currency balance the price is drawn from.
    pub authority_lamports: u64,
    /// The buyer's asset balance that receives the escrowed lot.
    pub bidder_token_account: u64,
    /// The seller identity the buyer declares; it must match the record.
    pub auction_owner: Pubkey,
    /// The declared seller's settlement-currency balance.
    pub auction_owner_lamports: u64,
}

impl AuctionSlot {
    /// The custody invariant: a live record is well-formed and the escrow
    /// holds exactly its locked quantity; an absent record leaves the escrow
    /// empty. Every transition preserves this.
    pub open spec fn inv(self) -> bool {
        match self.record {
            Some(rec) => rec.wf() && self.escrow_token_account == rec.amount,
            None => self.escrow_token_account == 0,
        }
    }

    /// A fresh, absent slot: no record, empty escrow.
    pub fn new() -> (s: AuctionSlot)
        ensures
            s.record is None,
            s.escrow_token_account == 0,
            s.inv(),
    {
        AuctionSlot { record: None, escrow_token_account: 0 }
    }
}

/// The outcome `initialize_auction` is required to produce: the new slot,
/// the new seller accounts, and the result code, as a function of the inputs.
pub open spec fn spec_initialize(
    slot: AuctionSlot,
    acc: InitializeAuction,
    now: i64,
    starting_time: i64,
    ending_time: i64,
    start_price: u32,
    amount: u64,
    bump: u8,
) -> (AuctionSlot, InitializeAuction, Result<(), ErrorCode>) {
    if slot.record is Some {
        (slot, acc, Err(ErrorCode::AuctionExists))
    } else if starting_time >= ending_time {
        (slot, acc, Err(ErrorCode::InvalidDateRange))
    } else if now > starting_time {
        (slot, acc, Err(ErrorCode::InvalidStartDate))
    } else if acc.holder_token_account < amount {
        (slot, acc, Err(ErrorCode::InsufficientFunds))
    } else {
        (
            AuctionSlot {
                record: Some(
                    AuctionAccount {
                        authority: acc.authority,
                        amount,
                        starting_price: start_price,
                        starting_time,
                        ending_time,
                        bump,
                    },
                ),
                escrow_token_account: amount,
            },
            InitializeAuction {
                authority: acc.authority,
                holder_token_account: (acc.holder_token_account - amount) as u64,
            },
            Ok(()),
        )
    }
}

/// The outcome `close_auction` is required to produce.
pub open spec fn spec_close(slot: AuctionSlot, acc: CloseAuction) -> (
    AuctionSlot,
    CloseAuction,
    Result<(), ErrorCode>,
) {
    match slot.record {
        None => (slot, acc, Err(ErrorCode::AuctionNotFound)),
        Some(rec) => {
            if acc.authority@ != rec.authority@ {
                (slot, acc, Err(ErrorCode::ProxyClose))
            } else {
                (
                    AuctionSlot { record: None, escrow_token_account: 0 },
                    CloseAuction {
                        authority: acc.authority,
                        holder_token_account: (acc.holder_token_account + rec.amount) as u64,
                    },
                    Ok(()),
                )
            }
        },
    }
}

/// The outcome `bid` is required to produce.
pub open spec fn spec_bid(slot: AuctionSlot, acc: Bid, now: i64) -> (
    AuctionSlot,
    Bid,
    Result<(), ErrorCode>,
) {
    match slot.record {
        None => (slot, acc, Err(ErrorCode::AuctionNotFound)),
        Some(rec) => {
            if now < rec.starting_time {
                (slot, acc, Err(ErrorCode::AuctionEarly))
            } else if now > rec.ending_time {
                (slot, acc, Err(ErrorCode::AuctionLate))
            } else if acc.auction_owner@ != rec.authority@ {
                (slot, acc, Err(ErrorCode::MismatchedOwners))
            } else if acc.authority_lamports < price_spec(rec, now) {
                (slot, acc, Err(ErrorCode::InsufficientFunds))
            } else {
                (
                    AuctionSlot { record: None, escrow_token_account: 0 },
                    Bid {
                        authority: acc.authority,
                        authority_lamports: (acc.authority_lamports - price_spec(
                            rec,
                            now,
                        )) as u64,
                        bidder_token_account: (acc.bidder_token_account + rec.amount) as u64,
                        auction_owner: acc.auction_owner,
                        auction_owner_lamports: (acc.auction_owner_lamports + price_spec(
                            rec,
                            now,
                        )) as u64,
                    },
                    Ok(()),
                )
            }
        },
    }
}

/// Opens an auction: validates the schedule, writes the record, and moves
/// `amount` units of the asset from the seller's holding balance into the
/// escrow custody. On any error both the slot and the accounts are unchanged.
pub fn initialize_auction(
    slot: &mut AuctionSlot,
    accounts: &mut InitializeAuction,
    now: i64,
    starting_time: i64,
    ending_time: i64,
    start_price: u32,
    amount: u64,
    bump: u8,
) -> (r: Result<(), ErrorCode>)
    requires
        old(slot).inv(),
        amount > 0,
    ensures
        *final(slot) == spec_initialize(
            *old(slot),
            *old(accounts),
            now,
            starting_time,
            ending_time,
            start_price,
            amount,
            bump,
        ).0,
        *final(accounts) == spec_initialize(
            *old(slot),
            *old(accounts),
            now,
            starting_time,
            ending_time,
            start_price,
            amount,
            bump,
        ).1,
        r == spec_initialize(
            *old(slot),
            *old(accounts),
            now,
            starting_time,
            ending_time,
            start_price,
            amount,
            bump,
        ).2,
        final(slot).inv(),
{
    match &slot.record {
        Some(_) => {
            return Err(ErrorCode::AuctionExists);
        },
        None => {},
    }
    if starting_time >= ending_time {
        return Err(ErrorCode::InvalidDateRange);
    }
    if now > starting_time {
        return Err(ErrorCode::InvalidStartDate);
    }
    if accounts.holder_token_account < amount {
        return Err(ErrorCode::InsufficientFunds);
    }
    slot.record = Some(
        AuctionAccount {
            authority: accounts.authority,
            amount,
            starting_price: start_price,
            starting_time,
            ending_time,
            bump,
        },
    );
    slot.escrow_token_account = amount;
    accounts.holder_token_account = accounts.holder_token_account - amount;
    Ok(())
}

/// Cancels an auction: only the record's authority may call it, at any time,
/// as long as no bid has yet consumed the record. The escrowed quantity moves
/// back to the holding balance, the escrow is drained, and the record is
/// destroyed, so a repeated cancel (or a racing bid) finds the slot absent.
pub fn close_auction(slot: &mut AuctionSlot, accounts: &mut CloseAuction) -> (r: Result<
    (),
    ErrorCode,
>)
    requires
        old(slot).inv(),
        spec_close(*old(slot), *old(accounts)).2 is Ok ==> old(accounts).holder_token_account
            + old(slot).record->0.amount <= u64::MAX,
    ensures
        *final(slot) == spec_close(*old(slot), *old(accounts)).0,
        *final(accounts) == spec_close(*old(slot), *old(accounts)).1,
        r == spec_close(*old(slot), *old(accounts)).2,
        final(slot).inv(),
{
    let rec = match &slot.record {
        Some(rec) => *rec,
        None => {
            return Err(ErrorCode::AuctionNotFound);
        },
    };
    if !accounts.authority.key_eq(&rec.authority) {
        return Err(ErrorCode::ProxyClose);
    }
    accounts.holder_token_account = accounts.holder_token_account + rec.amount;
    slot.escrow_token_account = 0;
    slot.record = None;
    Ok(())
}

/// Settles an auction: inside the decay window, and with the declared seller
/// matching the record's authority, the buyer pays the current price to the
/// seller, receives the full escrowed lot, and the record is destroyed.
/// All four effects land together or not at all; on any error both the slot
/// and the accounts are unchanged.
pub fn bid(slot: &mut AuctionSlot, accounts: &mut Bid, now: i64) -> (r: Result<(), ErrorCode>)
    requires
        old(slot).inv(),
        spec_bid(*old(slot), *old(accounts), now).2 is Ok ==> old(
            accounts,
        ).auction_owner_lamports + price_spec(old(slot).record->0, now) <= u64::MAX && old(
            accounts,
        ).bidder_token_account + old(slot).record->0.amount <= u64::MAX,
    ensures
        *final(slot) == spec_bid(*old(slot), *old(accounts), now).0,
        *final(accounts) == spec_bid(*old(slot), *old(accounts), now).1,
        r == spec_bid(*old(slot), *old(accounts), now).2,
        final(slot).inv(),
{
    let rec = match &slot.record {
        Some(rec) => *rec,
        None => {
            return Err(ErrorCode::AuctionNotFound);
        },
    };
    if now < rec.starting_time {
        return Err(ErrorCode::AuctionEarly);
    }
    if now > rec.ending_time {
        return Err(ErrorCode::AuctionLate);
    }
    if !accounts.auction_owner.key_eq(&rec.authority) {
        return Err(ErrorCode::MismatchedOwners);
    }
    let price = current_price(&rec, now) as u64;
    if accounts.authority_lamports < price {
        return Err(ErrorCode::InsufficientFunds);
    }
    accounts.authority_lamports = accounts.authority_lamports - price;
    accounts.auction_owner_lamports = accounts.auction_owner_lamports + price;
    accounts.bidder_token_account = accounts.bidder_token_account + rec.amount;
    slot.escrow_token_account = 0;
    slot.record = None;
    Ok(())
}

/// A bid outside the decay window is rejected — `AuctionEarly` before the
/// opening, `AuctionLate` after the close — and both the slot (record and
/// escrow alike) and the accounts are left unchanged.
pub proof fn lemma_bid_outside_window_rejected(slot: AuctionSlot, acc: Bid, now: i64)
    requires
        slot.inv(),
        slot.record is Some,
        now < slot.record->0.starting_time || now > slot.record->0.ending_time,
    ensures
        spec_bid(slot, acc, now).0 == slot,
        spec_bid(slot, acc, now).1 == acc,
        now < slot.record->0.starting_time ==> spec_bid(slot, acc, now).2 == Err::<
            (),
            ErrorCode,
        >(ErrorCode::AuctionEarly),
        now > slot.record->0.ending_time ==> spec_bid(slot, acc, now).2 == Err::<
            (),
            ErrorCode,
        >(ErrorCode::AuctionLate),
{
}

/// Both terminal transitions destroy the record the moment they succeed.
pub proof fn lemma_success_destroys_record(
    slot: AuctionSlot,
    bid_acc: Bid,
    now: i64,
    close_acc: CloseAuction,
)
    ensures
        spec_bid(slot, bid_acc, now).2 is Ok ==> spec_bid(slot, bid_acc, now).0.record is None
            && spec_bid(slot, bid_acc, now).0.escrow_token_account == 0,
        spec_close(slot, close_acc).2 is Ok ==> spec_close(slot, close_acc).0.record is None
            && spec_close(slot, close_acc).0.escrow_token_account == 0,
{
}

/// An absent slot rejects every operation with `AuctionNotFound` and is left
/// unchanged, as are the accounts handed in.
pub proof fn lemma_absent_slot_rejects_all(
    slot: AuctionSlot,
    bid_acc: Bid,
    now: i64,
    close_acc: CloseAuction,
)
    requires
        slot.record is None,
    ensures
        spec_bid(slot, bid_acc, now).0 == slot,
        spec_bid(slot, bid_acc, now).1 == bid_acc,
        spec_bid(slot, bid_acc, now).2 == Err::<(), ErrorCode>(ErrorCode::AuctionNotFound),
        spec_close(slot, close_acc).0 == slot,
        spec_close(slot, close_acc).1 == close_acc,
        spec_close(slot, close_acc).2 == Err::<(), ErrorCode>(ErrorCode::AuctionNotFound),
{
}

/// At most one of `bid` and `close_auction` ever succeeds against a given
/// record: after either succeeds, the record is absent, and every later
/// `bid` or `close_auction` against the same slot fails `AuctionNotFound`
/// without touching anything. In particular, of two racing bids serialized
/// by the host, exactly the first can succeed.
pub proof fn lemma_at_most_one_terminal_success(
    slot: AuctionSlot,
    first_bid: Bid,
    first_now: i64,
    first_close: CloseAuction,
    later_bid: Bid,
    later_now: i64,
    later_close: CloseAuction,
)
    ensures
        spec_bid(slot, first_bid, first_now).2 is Ok ==> ({
            let after = spec_bid(slot, first_bid, first_now).0;
            &&& after.record is None
            &&& spec_bid(after, later_bid, later_now).2 == Err::<
                (),
                ErrorCode,
            >(ErrorCode::AuctionNotFound)
            &&& spec_bid(after, later_bid, later_now).0 == after
            &&& spec_close(after, later_close).2 == Err::<
                (),
                ErrorCode,
            >(ErrorCode::AuctionNotFound)
            &&& spec_close(after, later_close).0 == after
        }),
        spec_close(slot, first_close).2 is Ok ==> ({
            let after = spec_close(slot, first_close).0;
            &&& after.record is None
            &&& spec_bid(after, later_bid, later_now).2 == Err::<
                (),
                ErrorCode,
            >(ErrorCode::AuctionNotFound)
            &&& spec_bid(after, later_bid, later_now).0 == after
            &&& spec_close(after, later_close).2 == Err::<
                (),
                ErrorCode,
            >(ErrorCode::AuctionNotFound)
            &&& spec_close(after, later_close).0 == after
        }),
{
}

/// Cancellation by any identity other than the record's authority fails with
/// `ProxyClose` and leaves the slot and the accounts unchanged.
pub proof fn lemma_cancel_requires_authority(slot: AuctionSlot, acc: CloseAuction)
    requires
        slot.record is Some,
        acc.authority@ != slot.record->0.authority@,
    ensures
        spec_close(slot, acc).0 == slot,
        spec_close(slot, acc).1 == acc,
        spec_close(slot, acc).2 == Err::<(), ErrorCode>(ErrorCode::ProxyClose),
{
}

/// A bid whose declared seller does not match the record's authority fails
/// with `MismatchedOwners` and leaves the slot and the accounts unchanged.
/// (Outside the decay window the time checks reject the bid first.)
pub proof fn lemma_bid_requires_matching_owner(slot: AuctionSlot, acc: Bid, now: i64)
    requires
        slot.record is Some,
        slot.record->0.starting_time <= now <= slot.record->0.ending_time,
        acc.auction_owner@ != slot.record->0.authority@,
    ensures
        spec_bid(slot, acc, now).0 == slot,
        spec_bid(slot, acc, now).1 == acc,
        spec_bid(slot, acc, now).2 == Err::<(), ErrorCode>(ErrorCode::MismatchedOwners),
{
}

/// Settlement conserves value: a successful bid moves the price from the
/// buyer's settlement balance to the seller's, and the full escrowed lot
/// from the custody balance to the buyer's asset balance — both totals are
/// exactly what they were before the trade.
pub proof fn lemma_settlement_conserves_value(slot: AuctionSlot, acc: Bid, now: i64)
    requires
        slot.inv(),
        spec_bid(slot, acc, now).2 is Ok ==> acc.auction_owner_lamports + price_spec(
            slot.record->0,
            now,
        ) <= u64::MAX && acc.bidder_token_account + slot.record->0.amount <= u64::MAX,
    ensures
        spec_bid(slot, acc, now).2 is Ok ==> ({
            let (after, paid, _) = spec_bid(slot, acc, now);
            &&& paid.authority_lamports + paid.auction_owner_lamports == acc.authority_lamports
                + acc.auction_owner_lamports
            &&& paid.bidder_token_account + after.escrow_token_account
                == acc.bidder_token_account + slot.escrow_token_account
        }),
{
    if spec_bid(slot, acc, now).2 is Ok {
        crate::price::lemma_price_in_range(slot.record->0, now);
    }
}

/// Round trip: a successful `initialize_auction` followed immediately by a
/// cancellation from the same seller returns the holding balance to exactly
/// its prior value — the quantity is conserved and no escrow is left behind.
pub proof fn lemma_initialize_then_cancel_round_trip(
    slot: AuctionSlot,
    acc: InitializeAuction,
    now: i64,
    starting_time: i64,
    ending_time: i64,
    start_price: u32,
    amount: u64,
    bump: u8,
)
    requires
        spec_initialize(
            slot,
            acc,
            now,
            starting_time,
            ending_time,
            start_price,
            amount,
            bump,
        ).2 is Ok,
    ensures
        ({
            let (live, funded, _) = spec_initialize(
                slot,
                acc,
                now,
                starting_time,
                ending_time,
                start_price,
                amount,
                bump,
            );
            let cancel = CloseAuction {
                authority: acc.authority,
                holder_token_account: funded.holder_token_account,
            };
            let (after, refunded, outcome) = spec_close(live, cancel);
            &&& outcome is Ok
            &&& refunded.holder_token_account == acc.holder_token_account
            &&& after.record is None
            &&& after.escrow_token_account == 0
        }),
{
}

} // verus!
