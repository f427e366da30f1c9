//! The persisted layout of an escrow record: an 8-byte type tag, then the
//! fields in order — `seed` (8 bytes, little-endian), `maker` (32),
//! `mint_a` (32), `mint_b` (32), `receive` (8, little-endian), `bump` (1);
//! 121 bytes in all. Encoding and decoding are verified inverses.

use crate::state::{AccountId, Escrow};
use vstd::bytes::{
    lemma_auto_spec_u64_to_from_le_bytes, spec_u64_to_le_bytes, u64_from_le_bytes, u64_to_le_bytes,
};
use vstd::prelude::*;
use vstd::slice::slice_subrange;

verus! {

broadcast use vstd::array::group_array_axioms;

/// The 8-byte tag that marks a stored account as an escrow record.
pub open spec fn spec_record_tag() -> Seq<u8> {
    seq![31u8, 213u8, 123u8, 187u8, 186u8, 22u8, 218u8, 155u8]
}

/// The bytes a record is persisted as.
pub open spec fn spec_record_bytes(e: Escrow) -> Seq<u8> {
    spec_record_tag() + spec_u64_to_le_bytes(e.seed) + e.maker.bytes@ + e.mint_a.bytes@
        + e.mint_b.bytes@ + spec_u64_to_le_bytes(e.receive) + seq![e.bump]
}

/// The persisted size of a record: tag and fields.
pub proof fn lemma_record_bytes_len(e: Escrow)
    ensures
        spec_record_bytes(e).len() == 121,
{
    lemma_auto_spec_u64_to_from_le_bytes();
}

fn push_tag(out: &mut Vec<u8>)
    ensures
        final(out)@ == old(out)@ + spec_record_tag(),
{
    out.push(31);
    out.push(213);
    out.push(123);
    out.push(187);
    out.push(186);
    out.push(22);
    out.push(218);
    out.push(155);
    proof {
        assert(out@ =~= old(out)@ + spec_record_tag());
    }
}

fn push_bytes32(out: &mut Vec<u8>, b: &[u8; 32])
    ensures
        final(out)@ == old(out)@ + b@,
{
    let mut i: usize = 0;
    while i < 32
        invariant
            0 <= i <= 32,
            out@ == old(out)@ + b@.subrange(0, i as int),
        decreases 32 - i,
    {
        out.push(b[i]);
        proof {
            assert(b@.subrange(0, i + 1) =~= b@.subrange(0, i as int).push(b@[i as int]));
        }
        i = i + 1;
    }
    proof {
        assert(b@.subrange(0, 32) =~= b@);
    }
}

fn read_bytes32(b: &[u8], off: usize) -> (r: [u8; 32])
    requires
        off + 32 <= b@.len(),
        b@.len() <= usize::MAX,
    ensures
        r@ == b@.subrange(off as int, off as int + 32),
{
    let mut out: [u8; 32] = [0; 32];
    let mut i: usize = 0;
    while i < 32
        invariant
            0 <= i <= 32,
            off + 32 <= b@.len(),
            b@.len() <= usize::MAX,
            forall|j: int| 0 <= j < i ==> out@[j] == b@[off + j],
        decreases 32 - i,
    {
        out[i] = b[off + i];
        i = i + 1;
    }
    proof {
        assert(out@ =~= b@.subrange(off as int, off as int + 32));
    }
    out
}

/// Serializes a record into its persisted form.
pub fn record_to_bytes(e: &Escrow) -> (r: Vec<u8>)
    ensures
        r@ == spec_record_bytes(*e),
        r@.len() == 121,
{
    proof {
        lemma_record_bytes_len(*e);
    }
    let mut out: Vec<u8> = Vec::new();
    push_tag(&mut out);
    let mut seed_bytes = u64_to_le_bytes(e.seed);
    out.append(&mut seed_bytes);
    push_bytes32(&mut out, &e.maker.bytes);
    push_bytes32(&mut out, &e.mint_a.bytes);
    push_bytes32(&mut out, &e.mint_b.bytes);
    let mut receive_bytes = u64_to_le_bytes(e.receive);
    out.append(&mut receive_bytes);
    out.push(e.bump);
    proof {
        assert(out@ =~= spec_record_bytes(*e));
    }
    out
}

/// Deserializes a persisted record. Returns `None` exactly on input that
/// is not 121 bytes long or does not carry the record tag; everything
/// else is the encoding of the record returned.
pub fn record_from_bytes(b: &[u8]) -> (r: Option<Escrow>)
    ensures
        match r {
            Some(e) => b@ == spec_record_bytes(e),
            None => b@.len() != 121 || b@.subrange(0, 8) != spec_record_tag(),
        },
{
    proof {
        lemma_auto_spec_u64_to_from_le_bytes();
    }
    if b.len() != 121 {
        return None;
    }
    let tag = slice_subrange(b, 0, 8);
    if !(tag[0] == 31 && tag[1] == 213 && tag[2] == 123 && tag[3] == 187 && tag[4] == 186
        && tag[5] == 22 && tag[6] == 218 && tag[7] == 155) {
        proof {
            assert(b@.subrange(0, 8) != spec_record_tag());
        }
        return None;
    }
    proof {
        assert(b@.subrange(0, 8) =~= spec_record_tag());
    }
    let seed = u64_from_le_bytes(slice_subrange(b, 8, 16));
    let maker = AccountId { bytes: read_bytes32(b, 16) };
    let mint_a = AccountId { bytes: read_bytes32(b, 48) };
    let mint_b = AccountId { bytes: read_bytes32(b, 80) };
    let receive = u64_from_le_bytes(slice_subrange(b, 112, 120));
    let bump = b[120];
    let e = Escrow { seed, maker, mint_a, mint_b, receive, bump };
    proof {
        assert(spec_u64_to_le_bytes(seed) =~= b@.subrange(8, 16));
        assert(spec_u64_to_le_bytes(receive) =~= b@.subrange(112, 120));
        assert(b@ =~= spec_record_bytes(e));
    }
    Some(e)
}

/// The persisted form is lossless: two records with the same encoding are
/// the same record, so decoding what was encoded gives the record back.
pub proof fn law_record_bytes_injective(e1: Escrow, e2: Escrow)
    requires
        spec_record_bytes(e1) == spec_record_bytes(e2),
    ensures
        e1 == e2,
{
    lemma_auto_spec_u64_to_from_le_bytes();
    let b = spec_record_bytes(e1);
    assert(spec_u64_to_le_bytes(e1.seed) =~= b.subrange(8, 16));
    assert(spec_u64_to_le_bytes(e2.seed) =~= b.subrange(8, 16));
    assert(e1.maker.bytes@ =~= b.subrange(16, 48));
    assert(e2.maker.bytes@ =~= b.subrange(16, 48));
    assert(e1.mint_a.bytes@ =~= b.subrange(48, 80));
    assert(e2.mint_a.bytes@ =~= b.subrange(48, 80));
    assert(e1.mint_b.bytes@ =~= b.subrange(80, 112));
    assert(e2.mint_b.bytes@ =~= b.subrange(80, 112));
    assert(spec_u64_to_le_bytes(e1.receive) =~= b.subrange(112, 120));
    assert(spec_u64_to_le_bytes(e2.receive) =~= b.subrange(112, 120));
    assert(e1.bump == b[120] && e2.bump == b[120]);
    assert(e1.maker.bytes =~= e2.maker.bytes);
    assert(e1.mint_a.bytes =~= e2.mint_a.bytes);
    assert(e1.mint_b.bytes =~= e2.mint_b.bytes);
    assert(e1.maker =~= e2.maker);
    assert(e1.mint_a =~= e2.mint_a);
    assert(e1.mint_b =~= e2.mint_b);
    assert(e1 == Escrow {
        seed: e1.seed,
        maker: e1.maker,
        mint_a: e1.mint_a,
        mint_b: e1.mint_b,
        receive: e1.receive,
        bump: e1.bump,
    });
}

} // verus!
