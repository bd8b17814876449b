use vstd::prelude::*;
use crate::keccak::{keccak256, keccak256_of};

verus! {

/// The outcome of an eligibility check, as the attestation commits to it.
pub struct VerificationOutcome {
    /// 32-byte digest of the identity fields.
    pub user_hash: Vec<u8>,
    pub is_valid: bool,
    pub verification_level: u8,
    /// Seconds since the Unix epoch.
    pub timestamp: u64,
}

/// Byte `i` (0 <= i < 32) of the 32-byte big-endian word that holds `t`:
/// the high 24 bytes are zero, the low 8 carry the value.
pub open spec fn word_byte(t: u64, i: int) -> u8 {
    if i < 24 {
        0u8
    } else {
        (#[verifier::truncate] (((t >> (((31 - i) * 8) as u64)) & 0xffu64) as u8))
    }
}

/// A 64-bit value as a 32-byte big-endian word.
pub open spec fn timestamp_word(t: u64) -> Seq<u8> {
    Seq::new(32, |i: int| word_byte(t, i))
}

/// The one-byte encoding of a flag.
pub open spec fn flag_byte(b: bool) -> u8 {
    if b {
        1u8
    } else {
        0u8
    }
}

/// The bytes the attestation digest is taken over:
/// user hash (32) ‖ validity flag (1) ‖ level (1) ‖ timestamp word (32).
pub open spec fn digest_preimage(o: VerificationOutcome) -> Seq<u8> {
    o.user_hash@ + seq![flag_byte(o.is_valid)] + seq![o.verification_level] + timestamp_word(
        o.timestamp,
    )
}

/// The attestation digest of an outcome.
pub open spec fn digest_of(o: VerificationOutcome) -> Seq<u8> {
    keccak256_of(digest_preimage(o))
}

/// Appends the 32-byte big-endian word that holds `t`.
fn push_timestamp_word(out: &mut Vec<u8>, t: u64)
    ensures
        final(out)@ == old(out)@ + timestamp_word(t),
{
    let start: Ghost<Seq<u8>> = Ghost(out@);
    let mut i: usize = 0;
    while i < 32
        invariant
            i <= 32,
            out@.len() == start@.len() + i,
            forall|k: int| 0 <= k < start@.len() ==> out@[k] == start@[k],
            forall|k: int| 0 <= k < i ==> out@[start@.len() + k] == word_byte(t, k),
        decreases 32 - i,
    {
        let b: u8 = if i < 24 {
            0u8
        } else {
            (#[verifier::truncate] (((t >> (((31 - i) * 8) as u64)) & 0xffu64) as u8))
        };
        out.push(b);
        i = i + 1;
    }
    assert(out@ =~= start@ + timestamp_word(t));
}

/// The attestation digest: Keccak-256 over the fixed field layout that an
/// independent verifier recomputes.
pub fn build_digest(outcome: &VerificationOutcome) -> (r: Vec<u8>)
    requires
        outcome.user_hash@.len() == 32,
    ensures
        r@ == digest_of(*outcome),
        r@.len() == 32,
{
    let mut pre: Vec<u8> = Vec::new();
    pre.extend_from_slice(outcome.user_hash.as_slice());
    pre.push(if outcome.is_valid { 1u8 } else { 0u8 });
    pre.push(outcome.verification_level);
    push_timestamp_word(&mut pre, outcome.timestamp);
    assert(pre@ =~= digest_preimage(*outcome));
    keccak256(pre.as_slice())
}

/// The digest is a function of the outcome's fields: outcomes that agree on
/// every field have the same digest.
pub proof fn lemma_digest_deterministic(a: VerificationOutcome, b: VerificationOutcome)
    requires
        a.user_hash@ == b.user_hash@,
        a.is_valid == b.is_valid,
        a.verification_level == b.verification_level,
        a.timestamp == b.timestamp,
    ensures
        digest_of(a) == digest_of(b),
{
    assert(digest_preimage(a) =~= digest_preimage(b));
}

/// Changing any field of an outcome changes the bytes its digest is taken
/// over: outcomes with equal digest input agree on every field.
pub proof fn lemma_digest_input_distinguishes_fields(a: VerificationOutcome, b: VerificationOutcome)
    requires
        a.user_hash@.len() == 32,
        b.user_hash@.len() == 32,
        digest_preimage(a) == digest_preimage(b),
    ensures
        a.user_hash@ == b.user_hash@,
        a.is_valid == b.is_valid,
        a.verification_level == b.verification_level,
        a.timestamp == b.timestamp,
{
    let pa = digest_preimage(a);
    let pb = digest_preimage(b);
    assert(a.user_hash@ =~= pa.subrange(0, 32));
    assert(b.user_hash@ =~= pb.subrange(0, 32));
    assert(pa[32] == flag_byte(a.is_valid));
    assert(pb[32] == flag_byte(b.is_valid));
    assert(pa[33] == a.verification_level);
    assert(pb[33] == b.verification_level);
    let ta = a.timestamp;
    let tb = b.timestamp;
    assert forall|i: int| 24 <= i < 32 implies word_byte(ta, i) == word_byte(tb, i) by {
        assert(pa[34 + i] == word_byte(ta, i));
        assert(pb[34 + i] == word_byte(tb, i));
    }
    assert(word_byte(ta, 24) == word_byte(tb, 24));
    assert(word_byte(ta, 25) == word_byte(tb, 25));
    assert(word_byte(ta, 26) == word_byte(tb, 26));
    assert(word_byte(ta, 27) == word_byte(tb, 27));
    assert(word_byte(ta, 28) == word_byte(tb, 28));
    assert(word_byte(ta, 29) == word_byte(tb, 29));
    assert(word_byte(ta, 30) == word_byte(tb, 30));
    assert(word_byte(ta, 31) == word_byte(tb, 31));
    assert(ta == tb) by (bit_vector)
        requires
            ((ta >> 56u64) & 0xffu64) as u8 == ((tb >> 56u64) & 0xffu64) as u8,
            ((ta >> 48u64) & 0xffu64) as u8 == ((tb >> 48u64) & 0xffu64) as u8,
            ((ta >> 40u64) & 0xffu64) as u8 == ((tb >> 40u64) & 0xffu64) as u8,
            ((ta >> 32u64) & 0xffu64) as u8 == ((tb >> 32u64) & 0xffu64) as u8,
            ((ta >> 24u64) & 0xffu64) as u8 == ((tb >> 24u64) & 0xffu64) as u8,
            ((ta >> 16u64) & 0xffu64) as u8 == ((tb >> 16u64) & 0xffu64) as u8,
            ((ta >> 8u64) & 0xffu64) as u8 == ((tb >> 8u64) & 0xffu64) as u8,
            ((ta >> 0u64) & 0xffu64) as u8 == ((tb >> 0u64) & 0xffu64) as u8,
    ;
}

} // verus!
