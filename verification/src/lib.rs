//! A single-asset Dutch auction with trustless escrow.
//!
//! A seller locks a fixed quantity of a fungible asset behind an auction
//! record and declares a linearly decaying price schedule over a fixed time
//! window. Any buyer may purchase the full lot at the price implied by the
//! elapsed time, paying the seller in a settlement currency; the seller may
//! instead cancel and reclaim the asset. Exactly one of {sale, cancellation}
//! ever succeeds for a given record: both terminal transitions destroy the
//! record, and every later operation observes it absent.
//!
//! The surrounding host is expected to execute each transition atomically
//! against the balances it passes in, to roll a failed transition back in
//! full, and to supply the current time from its clock oracle.

pub mod account;
pub mod codec;
pub mod error;
pub mod machine;
pub mod price;
pub mod pubkey;
pub mod registry;
