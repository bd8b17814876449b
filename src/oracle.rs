use vstd::prelude::*;
use vstd::slice::{slice_subrange, slice_to_vec};
use crate::digest::{build_digest, digest_of, VerificationOutcome};
use crate::error::OracleError;
use crate::hexcodec::{hex_decode, hex_decoded, hex_digit, hex_of, lemma_hex_digit_value, lemma_hex_round_trip};
use crate::kyc_verifier::{kyc_result_matches, user_hash_text, KYCDocument};
use crate::kyc_verifier::KYCResult;
use vstd::utf8::encode_utf8;
use crate::keccak::keccak256_of;
use crate::signature::{bytes_result, signature_result, ECDSASigner};
use crate::text::{strip_hex_prefix, trim_hex_prefix};

verus! {

/// The 32-byte user hash that a policy result carries: its text without
/// leading "0x" must be hexadecimal and spell at least 32 bytes, of which the
/// first 32 are taken.
pub open spec fn user_hash_bytes(result: KYCResult) -> Option<Seq<u8>> {
    match hex_decoded(strip_hex_prefix(result.user_hash@)) {
        Some(b) => if b.len() >= 32 {
            Some(b.subrange(0, 32))
        } else {
            None
        },
        None => None,
    }
}

/// The verification outcome that a policy result commits to; `ValidationError`
/// where its user hash is not hexadecimal text of at least 32 bytes.
pub fn outcome_of(result: &KYCResult) -> (r: Result<VerificationOutcome, OracleError>)
    ensures
        match user_hash_bytes(*result) {
            None => r matches Err(e) && e == OracleError::ValidationError,
            Some(h) => r matches Ok(o) && o.user_hash@ == h && o.is_valid == result.is_valid
                && o.verification_level == result.verification_level && o.timestamp
                == result.timestamp,
        },
{
    let digits = trim_hex_prefix(result.user_hash.as_str());
    match hex_decode(digits) {
        Some(bytes) => {
            if bytes.len() < 32 {
                return Err(OracleError::ValidationError);
            }
            let user_hash = slice_to_vec(slice_subrange(bytes.as_slice(), 0, 32));
            Ok(
                VerificationOutcome {
                    user_hash,
                    is_valid: result.is_valid,
                    verification_level: result.verification_level,
                    timestamp: result.timestamp,
                },
            )
        },
        None => Err(OracleError::ValidationError),
    }
}

/// The 65-byte attestation signature over an outcome's digest.
pub fn attest(signer: &ECDSASigner, outcome: &VerificationOutcome) -> (r: Result<
    Vec<u8>,
    OracleError,
>)
    requires
        outcome.user_hash@.len() == 32,
    ensures
        bytes_result(r) == signature_result(*signer, digest_of(*outcome)),
        r matches Ok(sig) ==> sig@.len() == 65,
{
    let digest = build_digest(outcome);
    signer.sign(digest.as_slice())
}

/// A user hash written as "0x" and the hexadecimal text of 32 bytes is
/// accepted and yields exactly those bytes.
pub proof fn lemma_prefixed_hex_user_hash(result: KYCResult, b: Seq<u8>)
    requires
        b.len() == 32,
        result.user_hash@ == seq!['0', 'x'] + hex_of(b),
    ensures
        user_hash_bytes(result) == Some(b),
{
    let s = result.user_hash@;
    let h = hex_of(b);
    assert(s.subrange(2, s.len() as int) =~= h);
    lemma_hex_digit_value(b[0] as int % 16);
    assert(h[1] == hex_digit(b[0] as int % 16));
    assert(strip_hex_prefix(h) == h);
    assert(strip_hex_prefix(s) == h);
    lemma_hex_round_trip(b);
    assert(b.subrange(0, 32) =~= b);
}

/// The policy's result always carries a user hash that `outcome_of`
/// accepts: the Keccak-256 of the name followed by the birth date.
pub proof fn lemma_policy_result_accepted(r: KYCResult, doc: KYCDocument, timestamp: u64)
    requires
        kyc_result_matches(r, doc, timestamp),
        r.user_hash@.len() == 66,
    ensures
        user_hash_bytes(r) == Some(keccak256_of(encode_utf8(doc.full_name@ + doc.birth_date@))),
{
    let k = keccak256_of(encode_utf8(doc.full_name@ + doc.birth_date@));
    assert(r.user_hash@ == user_hash_text(doc));
    assert(hex_of(k).len() == 2 * k.len());
    lemma_prefixed_hex_user_hash(r, k);
}

} // verus!
