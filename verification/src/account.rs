use crate::pubkey::Pubkey;
use vstd::prelude::*;

verus! {

pub const DISCRIMINATOR_LENGTH: usize = 8;

pub const PUBLIC_KEY_LENGTH: usize = 32;

pub const TIMESTAMP_LENGTH: usize = 8;

pub const U8_LENGTH: usize = 1;

pub const U32_LENGTH: usize = 4;

pub const U64_LENGTH: usize = 8;

/// The persisted record of one live auction: the ledger of truth for the
/// seller's identity, the locked quantity, and the price schedule. The record
/// is immutable after creation; its only further transition is destruction by
/// exactly one of the two terminal operations.
#[derive(Clone, Copy, Debug)]
pub struct AuctionAccount {
    /// The seller: only this identity may cancel, and only this identity
    /// receives settlement proceeds.
    pub authority: Pubkey,
    /// Quantity of the asset locked in escrow, fixed at creation and
    /// transferred in full on settlement or cancellation.
    pub amount: u64,
    /// Price ceiling at the opening of the decay window.
    pub starting_price: u32,
    /// Inclusive opening of the decay window.
    pub starting_time: i64,
    /// Inclusive close of the decay window.
    pub ending_time: i64,
    /// Derivation nonce: the opaque capability value that lets the record,
    /// rather than a person, authorize movements of the escrowed balance.
    pub bump: u8,
}

impl AuctionAccount {
    /// Width of the fixed-layout encoding, leading tag included.
    pub const LEN: usize = DISCRIMINATOR_LENGTH + PUBLIC_KEY_LENGTH + U64_LENGTH + U32_LENGTH
        + TIMESTAMP_LENGTH + TIMESTAMP_LENGTH + U8_LENGTH;

    /// Well-formedness of a live record: a positive locked quantity and a
    /// decay window of positive duration. `initialize_auction` establishes
    /// this and no later operation mutates the record.
    pub open spec fn wf(self) -> bool {
        &&& self.amount > 0
        &&& self.starting_time < self.ending_time
    }
}

} // verus!
