use crate::error::ErrorCode;
use crate::machine::{spec_bid, spec_close, spec_initialize};
use crate::machine::{AuctionSlot, Bid, CloseAuction, InitializeAuction};
use crate::price::price_spec;
use crate::pubkey::Pubkey;
use vstd::prelude::*;

verus! {

/// One seller's row in the registry: the identity and the slot it owns.
#[derive(Clone, Copy, Debug)]
pub struct RegistryEntry {
    pub seller: Pubkey,
    pub slot: AuctionSlot,
}

/// The global identity-keyed state: a mapping from seller identity to that
/// seller's one auction slot. A record's identifier is a deterministic
/// function of the seller identity alone, so each seller holds at most one
/// row, and a retired identifier can only be reused by the same seller
/// opening a new auction.
#[derive(Debug)]
pub struct AuctionRegistry {
    pub entries: Vec<RegistryEntry>,
}

impl AuctionRegistry {
    /// Registry well-formedness: seller identities are unique, every slot
    /// satisfies the custody invariant, and a live record always names the
    /// seller it is filed under.
    pub open spec fn wf(self) -> bool {
        &&& forall|i: int, j: int|
            #![trigger self.entries@[i].seller, self.entries@[j].seller]
            0 <= i < j < self.entries@.len() ==> self.entries@[i].seller@
                != self.entries@[j].seller@
        &&& forall|i: int|
            0 <= i < self.entries@.len() ==> (#[trigger] self.entries@[i]).slot.inv()
        &&& forall|i: int|
            0 <= i < self.entries@.len() ==> ((#[trigger] self.entries@[i]).slot.record is Some
                ==> self.entries@[i].slot.record->0.authority@ == self.entries@[i].seller@)
    }

    /// Whether some row is filed under `key`.
    pub open spec fn has_seller(self, key: Seq<u8>) -> bool {
        exists|i: int|
            0 <= i < self.entries@.len() && (#[trigger] self.entries@[i]).seller@ == key
    }

    /// The row index filed under `key`; meaningful only when one exists.
    pub open spec fn index_of(self, key: Seq<u8>) -> int {
        choose|i: int|
            0 <= i < self.entries@.len() && (#[trigger] self.entries@[i]).seller@ == key
    }

    /// The slot a seller identity currently owns. A seller without a row
    /// owns an absent slot — indistinguishable, to every transition, from a
    /// row whose record has already been destroyed.
    pub open spec fn slot_for(self, key: Seq<u8>) -> AuctionSlot {
        if self.has_seller(key) {
            self.entries@[self.index_of(key)].slot
        } else {
            AuctionSlot { record: None, escrow_token_account: 0 }
        }
    }

    /// An empty registry: no seller owns anything.
    pub fn new() -> (r: AuctionRegistry)
        ensures
            r.wf(),
            forall|k: Seq<u8>| !r.has_seller(k),
            forall|k: Seq<u8>| r.slot_for(k).record is None,
    {
        AuctionRegistry { entries: Vec::new() }
    }

    proof fn lemma_found_index(self, i: int, key: Seq<u8>)
        requires
            self.wf(),
            0 <= i < self.entries@.len(),
            self.entries@[i].seller@ == key,
        ensures
            self.has_seller(key),
            self.index_of(key) == i,
            self.slot_for(key) == self.entries@[i].slot,
    {
        assert(self.has_seller(key));
        let j = self.index_of(key);
        if j < i {
            assert(self.entries@[j].seller@ != self.entries@[i].seller@);
        } else if j > i {
            assert(self.entries@[i].seller@ != self.entries@[j].seller@);
        }
    }

    proof fn lemma_update_slot(self, post: AuctionRegistry, i: int, new_slot: AuctionSlot)
        requires
            self.wf(),
            0 <= i < self.entries@.len(),
            post.entries@ == self.entries@.update(
                i,
                RegistryEntry { seller: self.entries@[i].seller, slot: new_slot },
            ),
            new_slot.inv(),
            new_slot.record is Some ==> new_slot.record->0.authority@
                == self.entries@[i].seller@,
        ensures
            post.wf(),
            post.slot_for(self.entries@[i].seller@) == new_slot,
            post.has_seller(self.entries@[i].seller@),
            forall|k: Seq<u8>|
                k != self.entries@[i].seller@ ==> post.slot_for(k) == self.slot_for(k) && (
                post.has_seller(k) <==> self.has_seller(k)),
    {
        let key = self.entries@[i].seller@;
        assert forall|a: int|
            0 <= a < post.entries@.len() implies (#[trigger] post.entries@[a]).seller
            == self.entries@[a].seller by {}
        assert(post.wf());
        post.lemma_found_index(i, key);
        assert forall|k: Seq<u8>| k != key implies post.slot_for(k) == self.slot_for(k) && (
        post.has_seller(k) <==> self.has_seller(k)) by {
            if self.has_seller(k) {
                let a = choose|a: int|
                    0 <= a < self.entries@.len() && (#[trigger] self.entries@[a]).seller@ == k;
                assert(post.entries@[a].seller@ == k);
                assert(post.has_seller(k));
            }
            if post.has_seller(k) {
                let a = choose|a: int|
                    0 <= a < post.entries@.len() && (#[trigger] post.entries@[a]).seller@ == k;
                assert(self.entries@[a].seller@ == k);
                assert(self.has_seller(k));
            }
            if self.has_seller(k) && post.has_seller(k) {
                let a = self.index_of(k);
                let b = post.index_of(k);
                assert(self.entries@[a].seller@ == k);
                assert(post.entries@[b].seller@ == k);
                assert(self.entries@[b].seller@ == k);
                self.lemma_found_index(b, k);
                assert(a == b);
                assert(a != i);
            }
        }
    }

    proof fn lemma_push_entry(self, post: AuctionRegistry, entry: RegistryEntry)
        requires
            self.wf(),
            !self.has_seller(entry.seller@),
            post.entries@ == self.entries@.push(entry),
            entry.slot.inv(),
            entry.slot.record is Some ==> entry.slot.record->0.authority@ == entry.seller@,
        ensures
            post.wf(),
            post.slot_for(entry.seller@) == entry.slot,
            post.has_seller(entry.seller@),
            forall|k: Seq<u8>|
                k != entry.seller@ ==> post.slot_for(k) == self.slot_for(k) && (post.has_seller(
                    k,
                ) <==> self.has_seller(k)),
    {
        let key = entry.seller@;
        let n = self.entries@.len() as int;
        assert forall|a: int, b: int|
            #![trigger post.entries@[a].seller, post.entries@[b].seller]
            0 <= a < b < post.entries@.len() implies post.entries@[a].seller@
            != post.entries@[b].seller@ by {
            if b < n {
                assert(post.entries@[a] == self.entries@[a]);
                assert(post.entries@[b] == self.entries@[b]);
            } else {
                assert(post.entries@[b] == entry);
                assert(self.entries@[a].seller@ != key);
                assert(post.entries@[a] == self.entries@[a]);
            }
        }
        assert(post.wf());
        post.lemma_found_index(n, key);
        assert forall|k: Seq<u8>| k != key implies post.slot_for(k) == self.slot_for(k) && (
        post.has_seller(k) <==> self.has_seller(k)) by {
            if self.has_seller(k) {
                let a = choose|a: int|
                    0 <= a < self.entries@.len() && (#[trigger] self.entries@[a]).seller@ == k;
                assert(post.entries@[a].seller@ == k);
                assert(post.has_seller(k));
            }
            if post.has_seller(k) {
                let a = choose|a: int|
                    0 <= a < post.entries@.len() && (#[trigger] post.entries@[a]).seller@ == k;
                assert(a != n);
                assert(self.entries@[a].seller@ == k);
                assert(self.has_seller(k));
            }
            if self.has_seller(k) && post.has_seller(k) {
                let a = self.index_of(k);
                let b = post.index_of(k);
                assert(self.entries@[a].seller@ == k);
                assert(post.entries@[b].seller@ == k);
                assert(b != n);
                assert(self.entries@[b].seller@ == k);
                self.lemma_found_index(b, k);
                assert(a == b);
            }
        }
    }

    /// Linear scan for the row filed under `seller`.
    fn find(&self, seller: &Pubkey) -> (r: Option<usize>)
        ensures
            match r {
                Some(i) => i < self.entries@.len() && self.entries@[i as int].seller@ == seller@,
                None => !self.has_seller(seller@),
            },
    {
        let n = self.entries.len();
        let mut i: usize = 0;
        while i < n
            invariant
                n == self.entries@.len(),
                i <= n,
                forall|j: int| 0 <= j < i ==> (#[trigger] self.entries@[j]).seller@ != seller@,
            decreases n - i,
        {
            let entry = self.entries[i];
            if entry.seller.key_eq(seller) {
                return Some(i);
            }
            i += 1;
        }
        None
    }

    /// Opens an auction for the calling seller: the registry routes the
    /// transition to that seller's slot (creating the row on first use) and
    /// leaves every other seller's state untouched.
    pub fn initialize_auction(
        &mut self,
        accounts: &mut InitializeAuction,
        now: i64,
        starting_time: i64,
        ending_time: i64,
        start_price: u32,
        amount: u64,
        bump: u8,
    ) -> (r: Result<(), ErrorCode>)
        requires
            old(self).wf(),
            amount > 0,
        ensures
            final(self).wf(),
            r == spec_initialize(
                old(self).slot_for(old(accounts).authority@),
                *old(accounts),
                now,
                starting_time,
                ending_time,
                start_price,
                amount,
                bump,
            ).2,
            final(self).slot_for(old(accounts).authority@) == spec_initialize(
                old(self).slot_for(old(accounts).authority@),
                *old(accounts),
                now,
                starting_time,
                ending_time,
                start_price,
                amount,
                bump,
            ).0,
            *final(accounts) == spec_initialize(
                old(self).slot_for(old(accounts).authority@),
                *old(accounts),
                now,
                starting_time,
                ending_time,
                start_price,
                amount,
                bump,
            ).1,
            forall|k: Seq<u8>|
                k != old(accounts).authority@ ==> final(self).slot_for(k) == old(self).slot_for(
                    k,
                ),
    {
        let ghost pre = *self;
        let seller = accounts.authority;
        match self.find(&seller) {
            Some(i) => {
                proof {
                    pre.lemma_found_index(i as int, seller@);
                }
                let mut slot = self.entries[i].slot;
                let outcome = crate::machine::initialize_auction(
                    &mut slot,
                    accounts,
                    now,
                    starting_time,
                    ending_time,
                    start_price,
                    amount,
                    bump,
                );
                let entry = RegistryEntry { seller: self.entries[i].seller, slot };
                self.entries[i] = entry;
                proof {
                    pre.lemma_update_slot(*self, i as int, slot);
                }
                outcome
            },
            None => {
                let mut slot = AuctionSlot::new();
                let outcome = crate::machine::initialize_auction(
                    &mut slot,
                    accounts,
                    now,
                    starting_time,
                    ending_time,
                    start_price,
                    amount,
                    bump,
                );
                if outcome.is_ok() {
                    self.entries.push(RegistryEntry { seller, slot });
                    proof {
                        pre.lemma_push_entry(*self, RegistryEntry { seller, slot });
                    }
                }
                outcome
            },
        }
    }

    /// Cancels the auction filed under `seller`: a seller with no row owns
    /// an absent slot, so the attempt fails `AuctionNotFound` exactly as a
    /// destroyed record does.
    pub fn close_auction(&mut self, seller: &Pubkey, accounts: &mut CloseAuction) -> (r: Result<
        (),
        ErrorCode,
    >)
        requires
            old(self).wf(),
            spec_close(old(self).slot_for(seller@), *old(accounts)).2 is Ok ==> old(
                accounts,
            ).holder_token_account + old(self).slot_for(seller@).record->0.amount <= u64::MAX,
        ensures
            final(self).wf(),
            r == spec_close(old(self).slot_for(seller@), *old(accounts)).2,
            final(self).slot_for(seller@) == spec_close(
                old(self).slot_for(seller@),
                *old(accounts),
            ).0,
            *final(accounts) == spec_close(old(self).slot_for(seller@), *old(accounts)).1,
            forall|k: Seq<u8>|
                k != seller@ ==> final(self).slot_for(k) == old(self).slot_for(k),
    {
        let ghost pre = *self;
        match self.find(seller) {
            Some(i) => {
                proof {
                    pre.lemma_found_index(i as int, seller@);
                }
                let mut slot = self.entries[i].slot;
                let outcome = crate::machine::close_auction(&mut slot, accounts);
                let entry = RegistryEntry { seller: self.entries[i].seller, slot };
                self.entries[i] = entry;
                proof {
                    pre.lemma_update_slot(*self, i as int, slot);
                }
                outcome
            },
            None => Err(ErrorCode::AuctionNotFound),
        }
    }

    /// Settles the auction filed under `seller` for the calling buyer; a
    /// seller with no row owns an absent slot, so the bid fails
    /// `AuctionNotFound`.
    pub fn bid(&mut self, seller: &Pubkey, accounts: &mut Bid, now: i64) -> (r: Result<
        (),
        ErrorCode,
    >)
        requires
            old(self).wf(),
            spec_bid(old(self).slot_for(seller@), *old(accounts), now).2 is Ok ==> old(
                accounts,
            ).auction_owner_lamports + price_spec(old(self).slot_for(seller@).record->0, now)
                <= u64::MAX && old(accounts).bidder_token_account + old(self).slot_for(
                seller@,
            ).record->0.amount <= u64::MAX,
        ensures
            final(self).wf(),
            r == spec_bid(old(self).slot_for(seller@), *old(accounts), now).2,
            final(self).slot_for(seller@) == spec_bid(
                old(self).slot_for(seller@),
                *old(accounts),
                now,
            ).0,
            *final(accounts) == spec_bid(old(self).slot_for(seller@), *old(accounts), now).1,
            forall|k: Seq<u8>|
                k != seller@ ==> final(self).slot_for(k) == old(self).slot_for(k),
    {
        let ghost pre = *self;
        match self.find(seller) {
            Some(i) => {
                proof {
                    pre.lemma_found_index(i as int, seller@);
                }
                let mut slot = self.entries[i].slot;
                let outcome = crate::machine::bid(&mut slot, accounts, now);
                let entry = RegistryEntry { seller: self.entries[i].seller, slot };
                self.entries[i] = entry;
                proof {
                    pre.lemma_update_slot(*self, i as int, slot);
                }
                outcome
            },
            None => Err(ErrorCode::AuctionNotFound),
        }
    }
}

} // verus!
