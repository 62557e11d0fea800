use crate::account::AuctionAccount;
use crate::pubkey::Pubkey;
use vstd::array::ArrayAdditionalExecFns;
use vstd::bytes::*;
use vstd::prelude::*;
use vstd::slice::slice_subrange;

verus! {

broadcast use vstd::seq::group_seq_axioms, vstd::array::group_array_axioms;

/// Leading tag of an encoded record: the ASCII bytes of `DUTCHAUC`, read as
/// a little-endian word. The tag lets a reader reject bytes that were never
/// an auction record before it trusts any field.
pub const RECORD_TAG: u64 = 0x4355414843545544;

/// The two's-complement bit pattern of a timestamp, as the little-endian
/// layout stores it in an unsigned word.
pub open spec fn spec_i64_to_bits(x: i64) -> u64 {
    if x >= 0 {
        x as u64
    } else {
        (x + 0x1_0000_0000_0000_0000) as u64
    }
}

/// The timestamp a stored bit pattern denotes; inverse of `spec_i64_to_bits`.
pub open spec fn spec_bits_to_i64(b: u64) -> i64 {
    if b <= i64::MAX as u64 {
        b as i64
    } else {
        (b - 0x1_0000_0000_0000_0000) as i64
    }
}

/// Storing a timestamp and reading it back returns the same timestamp.
pub proof fn lemma_i64_bits_round_trip(x: i64)
    ensures
        spec_bits_to_i64(spec_i64_to_bits(x)) == x,
{
}

/// Reading a stored word and writing it again returns the same word.
pub proof fn lemma_bits_i64_round_trip(b: u64)
    ensures
        spec_i64_to_bits(spec_bits_to_i64(b)) == b,
{
}

/// The fixed-width little-endian layout of a record: tag, authority,
/// quantity, starting price, the two window timestamps, derivation nonce.
pub open spec fn spec_encode(rec: AuctionAccount) -> Seq<u8> {
    spec_u64_to_le_bytes(RECORD_TAG) + rec.authority@ + spec_u64_to_le_bytes(rec.amount)
        + spec_u32_to_le_bytes(rec.starting_price) + spec_u64_to_le_bytes(
        spec_i64_to_bits(rec.starting_time),
    ) + spec_u64_to_le_bytes(spec_i64_to_bits(rec.ending_time)) + seq![rec.bump]
}

proof fn lemma_encode_parts(rec: AuctionAccount)
    ensures
        spec_encode(rec).len() == AuctionAccount::LEN,
        spec_encode(rec).subrange(0, 8) == spec_u64_to_le_bytes(RECORD_TAG),
        spec_encode(rec).subrange(8, 40) == rec.authority@,
        spec_encode(rec).subrange(40, 48) == spec_u64_to_le_bytes(rec.amount),
        spec_encode(rec).subrange(48, 52) == spec_u32_to_le_bytes(rec.starting_price),
        spec_encode(rec).subrange(52, 60) == spec_u64_to_le_bytes(
            spec_i64_to_bits(rec.starting_time),
        ),
        spec_encode(rec).subrange(60, 68) == spec_u64_to_le_bytes(
            spec_i64_to_bits(rec.ending_time),
        ),
        spec_encode(rec)[68] == rec.bump,
{
    lemma_auto_spec_u64_to_from_le_bytes();
    lemma_auto_spec_u32_to_from_le_bytes();
    let s = spec_encode(rec);
    assert(s.subrange(0, 8) =~= spec_u64_to_le_bytes(RECORD_TAG));
    assert(s.subrange(8, 40) =~= rec.authority@);
    assert(s.subrange(40, 48) =~= spec_u64_to_le_bytes(rec.amount));
    assert(s.subrange(48, 52) =~= spec_u32_to_le_bytes(rec.starting_price));
    assert(s.subrange(52, 60) =~= spec_u64_to_le_bytes(spec_i64_to_bits(rec.starting_time)));
    assert(s.subrange(60, 68) =~= spec_u64_to_le_bytes(spec_i64_to_bits(rec.ending_time)));
}

proof fn lemma_eq_by_parts(s1: Seq<u8>, s2: Seq<u8>)
    requires
        s1.len() == AuctionAccount::LEN,
        s2.len() == AuctionAccount::LEN,
        s1.subrange(0, 8) == s2.subrange(0, 8),
        s1.subrange(8, 40) == s2.subrange(8, 40),
        s1.subrange(40, 48) == s2.subrange(40, 48),
        s1.subrange(48, 52) == s2.subrange(48, 52),
        s1.subrange(52, 60) == s2.subrange(52, 60),
        s1.subrange(60, 68) == s2.subrange(60, 68),
        s1[68] == s2[68],
    ensures
        s1 == s2,
{
    assert forall|k: int| 0 <= k < AuctionAccount::LEN implies s1[k] == s2[k] by {
        if k < 8 {
            assert(s1[k] == s1.subrange(0, 8)[k]);
            assert(s2[k] == s2.subrange(0, 8)[k]);
        } else if k < 40 {
            assert(s1[k] == s1.subrange(8, 40)[k - 8]);
            assert(s2[k] == s2.subrange(8, 40)[k - 8]);
        } else if k < 48 {
            assert(s1[k] == s1.subrange(40, 48)[k - 40]);
            assert(s2[k] == s2.subrange(40, 48)[k - 40]);
        } else if k < 52 {
            assert(s1[k] == s1.subrange(48, 52)[k - 48]);
            assert(s2[k] == s2.subrange(48, 52)[k - 48]);
        } else if k < 60 {
            assert(s1[k] == s1.subrange(52, 60)[k - 52]);
            assert(s2[k] == s2.subrange(52, 60)[k - 52]);
        } else if k < 68 {
            assert(s1[k] == s1.subrange(60, 68)[k - 60]);
            assert(s2[k] == s2.subrange(60, 68)[k - 60]);
        }
    }
    assert(s1 =~= s2);
}

/// Writes a timestamp's stored bit pattern.
pub fn i64_to_bits(x: i64) -> (b: u64)
    ensures
        b == spec_i64_to_bits(x),
{
    if x >= 0 {
        x as u64
    } else {
        ((x as i128) + 0x1_0000_0000_0000_0000i128) as u64
    }
}

/// Reads a timestamp back from its stored bit pattern.
pub fn bits_to_i64(b: u64) -> (x: i64)
    ensures
        x == spec_bits_to_i64(b),
{
    if b <= i64::MAX as u64 {
        b as i64
    } else {
        ((b as i128) - 0x1_0000_0000_0000_0000i128) as i64
    }
}

/// Encodes a record into its fixed-width persisted layout.
pub fn encode_account(rec: &AuctionAccount) -> (bytes: Vec<u8>)
    ensures
        bytes@ == spec_encode(*rec),
        bytes@.len() == AuctionAccount::LEN,
{
    let mut out: Vec<u8> = Vec::new();
    let mut part = u64_to_le_bytes(RECORD_TAG);
    out.append(&mut part);
    let mut i: usize = 0;
    while i < 32
        invariant
            i <= 32,
            out@ == spec_u64_to_le_bytes(RECORD_TAG) + rec.authority@.subrange(0, i as int),
        decreases 32 - i,
    {
        out.push(rec.authority.0[i]);
        proof {
            assert(rec.authority@.subrange(0, i + 1) =~= rec.authority@.subrange(0, i as int)
                + seq![rec.authority@[i as int]]);
        }
        i += 1;
    }
    proof {
        assert(rec.authority@.subrange(0, 32) =~= rec.authority@);
    }
    let mut part = u64_to_le_bytes(rec.amount);
    out.append(&mut part);
    let mut part = u32_to_le_bytes(rec.starting_price);
    out.append(&mut part);
    let mut part = u64_to_le_bytes(i64_to_bits(rec.starting_time));
    out.append(&mut part);
    let mut part = u64_to_le_bytes(i64_to_bits(rec.ending_time));
    out.append(&mut part);
    out.push(rec.bump);
    proof {
        lemma_encode_parts(*rec);
    }
    out
}

/// Decodes a record from its fixed-width persisted layout. Bytes of the
/// wrong length, or without the leading tag, are rejected; any bytes that
/// some record encodes to decode back to exactly that record.
pub fn decode_account(bytes: &Vec<u8>) -> (r: Option<AuctionAccount>)
    ensures
        r is Some <==> (bytes@.len() == AuctionAccount::LEN && bytes@.subrange(0, 8)
            == spec_u64_to_le_bytes(RECORD_TAG)),
        r is Some ==> spec_encode(r->0) == bytes@,
        forall|rec: AuctionAccount| bytes@ == spec_encode(rec) ==> r == Some(rec),
{
    proof {
        lemma_auto_spec_u64_to_from_le_bytes();
        lemma_auto_spec_u32_to_from_le_bytes();
    }
    if bytes.len() != AuctionAccount::LEN {
        proof {
            assert forall|rec: AuctionAccount| bytes@ != spec_encode(rec) by {
                lemma_encode_parts(rec);
            }
        }
        return None;
    }
    let tag = u64_from_le_bytes(slice_subrange(bytes.as_slice(), 0, 8));
    if tag != RECORD_TAG {
        proof {
            assert(bytes@.subrange(0, 8) != spec_u64_to_le_bytes(RECORD_TAG));
            assert forall|rec: AuctionAccount| bytes@ != spec_encode(rec) by {
                lemma_encode_parts(rec);
            }
        }
        return None;
    }
    let mut authority_bytes: [u8; 32] = [0u8; 32];
    let mut i: usize = 0;
    while i < 32
        invariant
            i <= 32,
            bytes@.len() == AuctionAccount::LEN,
            forall|j: int| 0 <= j < i ==> authority_bytes@[j] == bytes@[8 + j],
        decreases 32 - i,
    {
        authority_bytes.set(i, bytes[8 + i]);
        i += 1;
    }
    let amount = u64_from_le_bytes(slice_subrange(bytes.as_slice(), 40, 48));
    let starting_price = u32_from_le_bytes(slice_subrange(bytes.as_slice(), 48, 52));
    let starting_bits = u64_from_le_bytes(slice_subrange(bytes.as_slice(), 52, 60));
    let ending_bits = u64_from_le_bytes(slice_subrange(bytes.as_slice(), 60, 68));
    let bump = bytes[68];
    let rec = AuctionAccount {
        authority: Pubkey(authority_bytes),
        amount,
        starting_price,
        starting_time: bits_to_i64(starting_bits),
        ending_time: bits_to_i64(ending_bits),
        bump,
    };
    proof {
        lemma_bits_i64_round_trip(starting_bits);
        lemma_bits_i64_round_trip(ending_bits);
        lemma_encode_parts(rec);
        assert(rec.authority@ =~= bytes@.subrange(8, 40));
        assert(spec_u64_to_le_bytes(spec_i64_to_bits(rec.starting_time)) == bytes@.subrange(
            52,
            60,
        ));
        assert(spec_u64_to_le_bytes(spec_i64_to_bits(rec.ending_time)) == bytes@.subrange(60, 68));
        lemma_eq_by_parts(spec_encode(rec), bytes@);
        assert forall|other: AuctionAccount| bytes@ == spec_encode(other) implies Some(rec)
            == Some(other) by {
            lemma_encode_parts(other);
            lemma_i64_bits_round_trip(other.starting_time);
            lemma_i64_bits_round_trip(other.ending_time);
            assert(rec.authority.0@ =~= other.authority.0@);
            assert(rec.authority.0 == other.authority.0);
            assert(rec == other);
        }
    }
    Some(rec)
}

} // verus!
