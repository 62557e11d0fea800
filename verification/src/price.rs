use crate::account::AuctionAccount;
use vstd::arithmetic::div_mod::{
    lemma_div_is_ordered, lemma_div_multiples_vanish, lemma_div_of0, lemma_div_pos_is_pos,
};
use vstd::arithmetic::mul::{lemma_mul_inequality, lemma_mul_nonnegative, lemma_mul_upper_bound};
use vstd::prelude::*;

verus! {

/// The linear price decay of a record at time `now` inside the decay window:
/// the price falls from `starting_price` at the opening to `0` at the close,
/// with the discount rounded toward zero (floor division, all quantities
/// non-negative), so any verifier recomputing it lands on the same value.
pub open spec fn price_spec(rec: AuctionAccount, now: i64) -> int
    recommends
        rec.wf(),
        rec.starting_time <= now <= rec.ending_time,
{
    rec.starting_price - (now - rec.starting_time) * rec.starting_price / (rec.ending_time
        - rec.starting_time)
}

/// The price never leaves `[0, starting_price]` inside the window.
pub proof fn lemma_price_in_range(rec: AuctionAccount, now: i64)
    requires
        rec.wf(),
        rec.starting_time <= now <= rec.ending_time,
    ensures
        0 <= price_spec(rec, now) <= rec.starting_price,
{
    let e = now - rec.starting_time;
    let d = rec.ending_time - rec.starting_time;
    let sp = rec.starting_price as int;
    lemma_mul_nonnegative(e, sp);
    lemma_div_pos_is_pos(e * sp, d);
    lemma_mul_inequality(e, d, sp);
    lemma_div_is_ordered(e * sp, d * sp, d);
    lemma_div_multiples_vanish(sp, d);
}

/// At the opening of the window the price is exactly the starting price.
pub proof fn lemma_price_at_start(rec: AuctionAccount)
    requires
        rec.wf(),
    ensures
        price_spec(rec, rec.starting_time) == rec.starting_price,
{
    let d = rec.ending_time - rec.starting_time;
    lemma_div_of0(d);
}

/// At the close of the window the price is exactly zero.
pub proof fn lemma_price_at_end(rec: AuctionAccount)
    requires
        rec.wf(),
    ensures
        price_spec(rec, rec.ending_time) == 0,
{
    let d = rec.ending_time - rec.starting_time;
    let sp = rec.starting_price as int;
    lemma_div_multiples_vanish(sp, d);
}

/// The price is monotonically non-increasing as time advances through the
/// window.
pub proof fn lemma_price_nonincreasing(rec: AuctionAccount, t1: i64, t2: i64)
    requires
        rec.wf(),
        rec.starting_time <= t1 <= t2 <= rec.ending_time,
    ensures
        price_spec(rec, t2) <= price_spec(rec, t1),
{
    let e1 = t1 - rec.starting_time;
    let e2 = t2 - rec.starting_time;
    let d = rec.ending_time - rec.starting_time;
    let sp = rec.starting_price as int;
    lemma_mul_inequality(e1, e2, sp);
    lemma_div_is_ordered(e1 * sp, e2 * sp, d);
}

/// Computes the current price of a live, well-formed record at a time inside
/// the decay window. Both time deltas are widened before the multiplication,
/// so the intermediate product cannot overflow.
pub fn current_price(rec: &AuctionAccount, now: i64) -> (p: u32)
    requires
        rec.wf(),
        rec.starting_time <= now <= rec.ending_time,
    ensures
        p == price_spec(*rec, now),
        p <= rec.starting_price,
{
    let elapsed: u128 = ((now as i128) - (rec.starting_time as i128)) as u128;
    let duration: u128 = ((rec.ending_time as i128) - (rec.starting_time as i128)) as u128;
    let sp: u128 = rec.starting_price as u128;
    proof {
        lemma_mul_upper_bound(
            elapsed as int,
            0x1_0000_0000_0000_0000,
            sp as int,
            0xffff_ffff,
        );
    }
    let discount: u128 = (elapsed * sp) / duration;
    proof {
        lemma_price_in_range(*rec, now);
    }
    (sp - discount) as u32
}

} // verus!
