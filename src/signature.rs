use vstd::prelude::*;
use vstd::slice::{slice_subrange, slice_to_vec};
use vstd::string::*;
use crate::error::OracleError;
use crate::hexcodec::{hex_decode, hex_decoded, hex_encode, hex_of};
use crate::keccak::{keccak256, keccak256_of};
use crate::text::{strip_hex_prefix, trim_hex_prefix};

verus! {

/// What the secp256k1 library derives from secret-key bytes: `None` where it
/// refuses them as a secret key, else the 65-byte uncompressed public key.
pub uninterp spec fn public_key_of(secret: Seq<u8>) -> Option<Seq<u8>>;

/// The 64-byte compact ECDSA signature (r ‖ s) of a 32-byte message hash.
pub uninterp spec fn ecdsa_signature_of(message: Seq<u8>, secret: Seq<u8>) -> Seq<u8>;

/// What public-key recovery gives for a message hash, a compact signature and
/// a recovery identifier: `None` where recovery fails, else the 65-byte
/// uncompressed public key.
pub uninterp spec fn recovered_key_of(message: Seq<u8>, signature: Seq<u8>, id: u8) -> Option<
    Seq<u8>,
>;

/// Relies on `secp256k1::SecretKey::from_slice` (refuses anything but 32 bytes
/// that encode a scalar in range), `PublicKey::from_secret_key` and
/// `PublicKey::serialize_uncompressed` (65 bytes, the first one 0x04).
#[verifier::external_body]
fn derive_public_key(secret: &[u8]) -> (r: Option<Vec<u8>>)
    ensures
        r matches Some(p) ==> public_key_of(secret@) == Some(p@) && p@.len() == 65,
        r is None ==> public_key_of(secret@) is None,
        secret@.len() != 32 ==> r is None,
{
    let secp = secp256k1::Secp256k1::new();
    let key = secp256k1::SecretKey::from_slice(secret).ok()?;
    Some(secp256k1::PublicKey::from_secret_key(&secp, &key).serialize_uncompressed().to_vec())
}

/// Relies on `secp256k1::Secp256k1::sign_ecdsa` (deterministic nonces, RFC 6979)
/// and `Signature::serialize_compact` (r ‖ s, 64 bytes). It signs whenever the
/// message is 32 bytes long and the secret key is accepted.
#[verifier::external_body]
fn sign_compact(message: &[u8], secret: &[u8]) -> (r: Option<Vec<u8>>)
    ensures
        r matches Some(s) ==> s@ == ecdsa_signature_of(message@, secret@) && s@.len() == 64,
        message@.len() == 32 && public_key_of(secret@) is Some ==> r is Some,
{
    let secp = secp256k1::Secp256k1::new();
    let msg = secp256k1::Message::from_digest_slice(message).ok()?;
    let key = secp256k1::SecretKey::from_slice(secret).ok()?;
    Some(secp.sign_ecdsa(&msg, &key).serialize_compact().to_vec())
}

/// Relies on `secp256k1::ecdsa::RecoveryId::from_i32`,
/// `RecoverableSignature::from_compact`, `Secp256k1::recover_ecdsa` and
/// `PublicKey::serialize_uncompressed` (65 bytes).
#[verifier::external_body]
fn recover_public_key(message: &[u8], signature: &[u8], id: u8) -> (r: Option<Vec<u8>>)
    ensures
        r matches Some(p) ==> recovered_key_of(message@, signature@, id) == Some(p@),
        r is None ==> recovered_key_of(message@, signature@, id) is None,
{
    let secp = secp256k1::Secp256k1::new();
    let msg = secp256k1::Message::from_digest_slice(message).ok()?;
    let rid = secp256k1::ecdsa::RecoveryId::from_i32(id as i32).ok()?;
    let sig = secp256k1::ecdsa::RecoverableSignature::from_compact(signature, rid).ok()?;
    Some(secp.recover_ecdsa(&msg, &sig).ok()?.serialize_uncompressed().to_vec())
}

/// The prefix of the chain's signed-message convention for a 32-byte
/// message: "\x19Ethereum Signed Message:\n32".
pub open spec fn signed_message_prefix() -> Seq<u8> {
    seq![
        0x19u8, 69, 116, 104, 101, 114, 101, 117, 109, 32, 83, 105, 103, 110, 101, 100, 32, 77,
        101, 115, 115, 97, 103, 101, 58, 10, 51, 50,
    ]
}

/// The hash that is actually signed: Keccak-256 over the prefix and the digest.
pub open spec fn signed_message_hash(digest: Seq<u8>) -> Seq<u8> {
    keccak256_of(signed_message_prefix() + digest)
}

/// Whether recovery with identifier `id` reproduces the public key `pk`.
pub open spec fn recovers(message: Seq<u8>, signature: Seq<u8>, id: u8, pk: Seq<u8>) -> bool {
    recovered_key_of(message, signature, id) == Some(pk)
}

/// The first identifier in 0, 1, 2, 3 whose recovery reproduces `pk`.
pub open spec fn first_recovery_id(message: Seq<u8>, signature: Seq<u8>, pk: Seq<u8>) -> Option<u8> {
    if recovers(message, signature, 0, pk) {
        Some(0u8)
    } else if recovers(message, signature, 1, pk) {
        Some(1u8)
    } else if recovers(message, signature, 2, pk) {
        Some(2u8)
    } else if recovers(message, signature, 3, pk) {
        Some(3u8)
    } else {
        None
    }
}

/// The 20-byte address of an uncompressed public key: the low 20 bytes of the
/// Keccak-256 of the key without its format byte.
pub open spec fn address_of(pk: Seq<u8>) -> Seq<u8> {
    keccak256_of(pk.subrange(1, 65)).subrange(12, 32)
}

/// The bytes of the prefix that the chain's signed-message convention puts
/// before a 32-byte message.
fn signed_message_prefix_bytes() -> (r: Vec<u8>)
    ensures
        r@ == signed_message_prefix(),
{
    let r: Vec<u8> = vec![
        0x19u8, 69, 116, 104, 101, 114, 101, 117, 109, 32, 83, 105, 103, 110, 101, 100, 32, 77,
        101, 115, 115, 97, 103, 101, 58, 10, 51, 50,
    ];
    assert(r@ =~= signed_message_prefix());
    r
}

/// The view of a result that carries bytes.
pub open spec fn bytes_result(r: Result<Vec<u8>, OracleError>) -> Result<Seq<u8>, OracleError> {
    match r {
        Ok(v) => Ok(v@),
        Err(e) => Err(e),
    }
}

/// What signing a message hash gives: `ValidationError` unless it is 32
/// bytes long, else r ‖ s ‖ v with v the first recovery identifier that
/// reproduces the signer's public key, or `SigningError` where none does.
pub open spec fn signature_result(signer: ECDSASigner, message_hash: Seq<u8>) -> Result<
    Seq<u8>,
    OracleError,
> {
    if message_hash.len() != 32 {
        Err(OracleError::ValidationError)
    } else {
        let h = signed_message_hash(message_hash);
        let sig = ecdsa_signature_of(h, signer.secret_key());
        match first_recovery_id(h, sig, signer.public_key()) {
            Some(v) => Ok(sig + seq![v]),
            None => Err(OracleError::SigningError),
        }
    }
}

/// The secp256k1 signer of attestations.
pub struct ECDSASigner {
    secret: Vec<u8>,
    public_key: Vec<u8>,
}

impl ECDSASigner {
    /// The secret-key bytes.
    pub closed spec fn secret_key(&self) -> Seq<u8> {
        self.secret@
    }

    /// The 65-byte uncompressed public key that belongs to the secret key.
    pub closed spec fn public_key(&self) -> Seq<u8> {
        self.public_key@
    }

    #[verifier::type_invariant]
    spec fn inv(&self) -> bool {
        &&& self.secret@.len() == 32
        &&& self.public_key@.len() == 65
        &&& public_key_of(self.secret@) == Some(self.public_key@)
    }

    /// A signer from secret-key bytes, refused with `ConfigurationError` where
    /// the bytes are not a secp256k1 secret key.
    pub fn from_secret_bytes(secret: &[u8]) -> (r: Result<ECDSASigner, OracleError>)
        ensures
            match r {
                Ok(s) => s.secret_key() == secret@ && public_key_of(secret@) == Some(
                    s.public_key(),
                ),
                Err(e) => e == OracleError::ConfigurationError && public_key_of(secret@) is None,
            },
            secret@.len() != 32 ==> r is Err,
            r matches Ok(s) ==> s.secret_key().len() == 32 && s.public_key().len() == 65,
    {
        match derive_public_key(secret) {
            Some(pk) => Ok(ECDSASigner { secret: slice_to_vec(secret), public_key: pk }),
            None => Err(OracleError::ConfigurationError),
        }
    }

    /// A signer from a hexadecimal secret key, with or without leading "0x".
    pub fn new(private_key: &str) -> (r: Result<ECDSASigner, OracleError>)
        ensures
            match hex_decoded(strip_hex_prefix(private_key@)) {
                None => r == Err::<ECDSASigner, OracleError>(OracleError::ConfigurationError),
                Some(bytes) => match r {
                    Ok(s) => s.secret_key() == bytes && public_key_of(bytes) == Some(
                        s.public_key(),
                    ),
                    Err(e) => e == OracleError::ConfigurationError && public_key_of(bytes) is None,
                },
            },
            hex_decoded(strip_hex_prefix(private_key@)) matches Some(bytes) && bytes.len() != 32
                ==> r is Err,
            r matches Ok(s) ==> s.secret_key().len() == 32 && s.public_key().len() == 65,
    {
        let digits = trim_hex_prefix(private_key);
        match hex_decode(digits) {
            Some(bytes) => ECDSASigner::from_secret_bytes(bytes.as_slice()),
            None => Err(OracleError::ConfigurationError),
        }
    }

    /// Signs a 32-byte digest under the chain's signed-message convention and
    /// returns r ‖ s ‖ v, where v is the first recovery identifier that
    /// reproduces this signer's public key.
    pub fn sign(&self, message_hash: &[u8]) -> (r: Result<Vec<u8>, OracleError>)
        ensures
            bytes_result(r) == signature_result(*self, message_hash@),
            r matches Ok(sig) ==> sig@.len() == 65,
    {
        proof {
            use_type_invariant(self);
        }
        if message_hash.len() != 32 {
            return Err(OracleError::ValidationError);
        }
        let mut wrapped = signed_message_prefix_bytes();
        wrapped.extend_from_slice(message_hash);
        assert(wrapped@ =~= signed_message_prefix() + message_hash@);
        let h = keccak256(wrapped.as_slice());
        let mut sig = match sign_compact(h.as_slice(), self.secret.as_slice()) {
            Some(s) => s,
            None => return Err(OracleError::SigningError),
        };
        let mut id: u8 = 0;
        while id < 4
            invariant
                id <= 4,
                message_hash@.len() == 32,
                h@ == signed_message_hash(message_hash@),
                sig@ == ecdsa_signature_of(h@, self.secret@),
                sig@.len() == 64,
                forall|j: u8| j < id ==> !recovers(h@, sig@, j, self.public_key@),
            decreases 4 - id,
        {
            if let Some(pk) = recover_public_key(h.as_slice(), sig.as_slice(), id) {
                if vec_eq(&pk, &self.public_key) {
                    let ghost s0 = sig@;
                    assert(first_recovery_id(h@, s0, self.public_key@) == Some(id));
                    sig.push(id);
                    assert(sig@ =~= s0 + seq![id]);
                    return Ok(sig);
                }
            }
            id = id + 1;
        }
        Err(OracleError::SigningError)
    }

    /// The signer's 20-byte address.
    pub fn address(&self) -> (r: Vec<u8>)
        ensures
            r@ == address_of(self.public_key()),
            r@.len() == 20,
    {
        proof {
            use_type_invariant(self);
        }
        let hash = keccak256(slice_subrange(self.public_key.as_slice(), 1, 65));
        slice_to_vec(slice_subrange(hash.as_slice(), 12, 32))
    }

    /// The signer's address as "0x" followed by 40 lower-case hexadecimal digits.
    pub fn get_address(&self) -> (r: String)
        ensures
            r@ == seq!['0', 'x'] + hex_of(address_of(self.public_key())),
            r@.len() == 42,
    {
        let a = self.address();
        let digits = hex_encode(a.as_slice());
        let r = String::from_str("0x").concat(digits.as_str());
        proof {
            reveal_strlit("0x");
        }
        r
    }
}

/// Byte-wise equality of two vectors.
fn vec_eq(a: &Vec<u8>, b: &Vec<u8>) -> (r: bool)
    ensures
        r == (a@ == b@),
{
    if a.len() != b.len() {
        return false;
    }
    let mut i: usize = 0;
    while i < a.len()
        invariant
            i <= a@.len(),
            a@.len() == b@.len(),
            forall|k: int| 0 <= k < i ==> a@[k] == b@[k],
        decreases a@.len() - i,
    {
        if a[i] != b[i] {
            return false;
        }
        i = i + 1;
    }
    assert(a@ =~= b@);
    true
}

/// A signature that signing returns is recoverable: all but its last byte
/// are the ECDSA signature (r ‖ s) of the wrapped digest, and its last byte is
/// a recovery identifier below four that reproduces the signer's public key,
/// the first of 0, 1, 2, 3 that does.
pub proof fn lemma_signature_recovers(signer: ECDSASigner, digest: Seq<u8>, sig: Seq<u8>)
    requires
        signature_result(signer, digest) == Ok::<Seq<u8>, OracleError>(sig),
    ensures
        sig.len() >= 1,
        sig.drop_last() == ecdsa_signature_of(signed_message_hash(digest), signer.secret_key()),
        sig.last() < 4,
        recovers(signed_message_hash(digest), sig.drop_last(), sig.last(), signer.public_key()),
        forall|j: u8|
            j < sig.last() ==> !recovers(
                signed_message_hash(digest),
                sig.drop_last(),
                j,
                signer.public_key(),
            ),
{
    let h = signed_message_hash(digest);
    let s64 = ecdsa_signature_of(h, signer.secret_key());
    let v = first_recovery_id(h, s64, signer.public_key())->0;
    assert(sig.drop_last() =~= s64);
    assert(sig.last() == v);
}

} // verus!
