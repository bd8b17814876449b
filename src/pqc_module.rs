use vstd::prelude::*;
use vstd::slice::{slice_subrange, slice_to_vec};
use crate::error::OracleError;

verus! {

/// Length of a Kyber768 ciphertext.
pub const KEM_CIPHERTEXT_LEN: usize = 1088;

/// Length of a Kyber768 public key.
pub const KEM_PUBLIC_KEY_LEN: usize = 1184;

/// Length of a Kyber768 secret key.
pub const KEM_SECRET_KEY_LEN: usize = 2400;

/// Length of the shared secret, which is also the AES-256 key length.
pub const SHARED_SECRET_LEN: usize = 32;

/// Length of the AES-GCM nonce.
pub const NONCE_LEN: usize = 12;

/// Length of the AES-GCM authentication tag.
pub const TAG_LEN: usize = 16;

/// The shared secret that Kyber768 decapsulation derives from a ciphertext
/// and a secret key of the right lengths.
pub uninterp spec fn shared_secret_of(ciphertext: Seq<u8>, secret: Seq<u8>) -> Seq<u8>;

/// What AES-256-GCM decryption (no associated data) gives for a key, a nonce
/// and a ciphertext with its tag: `None` where the tag does not verify.
pub uninterp spec fn aes_gcm_opened(key: Seq<u8>, nonce: Seq<u8>, sealed: Seq<u8>) -> Option<
    Seq<u8>,
>;

/// Relies on `pqc_kyber::keypair` with the thread-local generator of `rand`:
/// a fresh Kyber768 key pair (public key, secret key). `keypair` fails only
/// where the generator's `try_fill_bytes` does, and that of `ThreadRng`
/// always succeeds.
#[verifier::external_body]
fn generate_keypair() -> (r: Option<(Vec<u8>, Vec<u8>)>)
    ensures
        r is Some,
        r matches Some(k) ==> k.0@.len() == KEM_PUBLIC_KEY_LEN && k.1@.len()
            == KEM_SECRET_KEY_LEN,
{
    let mut rng = rand::thread_rng();
    let k = pqc_kyber::keypair(&mut rng).ok()?;
    Some((k.public.to_vec(), k.secret.to_vec()))
}

/// Relies on `pqc_kyber::decapsulate`: it refuses a ciphertext or a secret key
/// of the wrong length and otherwise always yields a 32-byte shared secret
/// (a malformed ciphertext yields a pseudo-random secret, not an error).
#[verifier::external_body]
fn kem_decapsulate(ciphertext: &[u8], secret: &[u8]) -> (r: Option<Vec<u8>>)
    ensures
        r matches Some(ss) ==> ss@ == shared_secret_of(ciphertext@, secret@) && ss@.len()
            == SHARED_SECRET_LEN,
        r is Some <==> (ciphertext@.len() == KEM_CIPHERTEXT_LEN && secret@.len()
            == KEM_SECRET_KEY_LEN),
{
    pqc_kyber::decapsulate(ciphertext, secret).ok().map(|ss| ss.to_vec())
}

/// Relies on `aes_gcm::Aes256Gcm` through `aead::Aead::decrypt`: the last 16
/// bytes are the tag, and on success the plaintext is 16 bytes shorter than
/// its input; input shorter than a tag is refused.
#[verifier::external_body]
fn aes_gcm_decrypt(key: &[u8], nonce: &[u8], sealed: &[u8]) -> (r: Option<Vec<u8>>)
    requires
        key@.len() == SHARED_SECRET_LEN,
        nonce@.len() == NONCE_LEN,
    ensures
        r matches Some(p) ==> aes_gcm_opened(key@, nonce@, sealed@) == Some(p@) && p@.len()
            + TAG_LEN == sealed@.len(),
        r is None ==> aes_gcm_opened(key@, nonce@, sealed@) is None,
        sealed@.len() < TAG_LEN ==> r is None,
{
    let cipher = <aes_gcm::Aes256Gcm as aes_gcm::aead::KeyInit>::new(
        aes_gcm::Key::<aes_gcm::Aes256Gcm>::from_slice(key),
    );
    aes_gcm::aead::Aead::decrypt(&cipher, aes_gcm::Nonce::from_slice(nonce), sealed).ok()
}

/// What decrypting a package gives under a secret key.
///
/// Layout: KEM ciphertext (1088) ‖ nonce (12) ‖ AEAD ciphertext with tag.
pub open spec fn decrypt_result(secret: Seq<u8>, package: Seq<u8>) -> Result<
    Seq<u8>,
    OracleError,
> {
    let k = KEM_CIPHERTEXT_LEN as int;
    let n = NONCE_LEN as int;
    if package.len() < k + n {
        Err(OracleError::MalformedPackage)
    } else {
        let key = shared_secret_of(package.subrange(0, k), secret);
        match aes_gcm_opened(key, package.subrange(k, k + n), package.subrange(k + n, package.len() as int)) {
            Some(p) => Ok(p),
            None => Err(OracleError::AuthenticationFailure),
        }
    }
}

/// Holder of the oracle's Kyber768 key pair.
pub struct KyberHandler {
    public: Vec<u8>,
    secret: Vec<u8>,
}

impl KyberHandler {
    /// The public key.
    pub closed spec fn public_key(&self) -> Seq<u8> {
        self.public@
    }

    /// The secret key.
    pub closed spec fn secret_key(&self) -> Seq<u8> {
        self.secret@
    }

    #[verifier::type_invariant]
    spec fn inv(&self) -> bool {
        &&& self.public@.len() == KEM_PUBLIC_KEY_LEN
        &&& self.secret@.len() == KEM_SECRET_KEY_LEN
    }

    /// A handler with a freshly generated key pair.
    pub fn new() -> (r: KyberHandler)
        ensures
            r.public_key().len() == KEM_PUBLIC_KEY_LEN,
            r.secret_key().len() == KEM_SECRET_KEY_LEN,
    {
        let k = generate_keypair().unwrap();
        KyberHandler { public: k.0, secret: k.1 }
    }

    /// A handler over a given key pair, refused with `ConfigurationError`
    /// unless both keys have their Kyber768 lengths.
    pub fn from_keys(public: Vec<u8>, secret: Vec<u8>) -> (r: Result<KyberHandler, OracleError>)
        ensures
            public@.len() == KEM_PUBLIC_KEY_LEN && secret@.len() == KEM_SECRET_KEY_LEN
                <==> r is Ok,
            r matches Ok(h) ==> h.public_key() == public@ && h.secret_key() == secret@,
            r matches Err(e) ==> e == OracleError::ConfigurationError,
    {
        if public.len() == KEM_PUBLIC_KEY_LEN && secret.len() == KEM_SECRET_KEY_LEN {
            Ok(KyberHandler { public, secret })
        } else {
            Err(OracleError::ConfigurationError)
        }
    }

    /// The public key, for senders to encapsulate against.
    pub fn get_public_key(&self) -> (r: Vec<u8>)
        ensures
            r@ == self.public_key(),
    {
        slice_to_vec(self.public.as_slice())
    }

    /// The shared secret that a KEM ciphertext carries; `MalformedPackage`
    /// where the ciphertext does not have the Kyber768 length.
    pub fn decapsulate(&self, ciphertext: &[u8]) -> (r: Result<Vec<u8>, OracleError>)
        ensures
            ciphertext@.len() == KEM_CIPHERTEXT_LEN <==> r is Ok,
            r matches Ok(ss) ==> ss@ == shared_secret_of(ciphertext@, self.secret_key())
                && ss@.len() == SHARED_SECRET_LEN,
            r matches Err(e) ==> e == OracleError::MalformedPackage,
    {
        proof {
            use_type_invariant(self);
        }
        match kem_decapsulate(ciphertext, self.secret.as_slice()) {
            Some(ss) => Ok(ss),
            None => Err(OracleError::MalformedPackage),
        }
    }

    /// Recovers the plaintext of an encrypted submission.
    pub fn decrypt(&self, encrypted_package: &[u8]) -> (r: Result<Vec<u8>, OracleError>)
        ensures
            match decrypt_result(self.secret_key(), encrypted_package@) {
                Ok(p) => r is Ok && r->Ok_0@ == p,
                Err(e) => r == Err::<Vec<u8>, OracleError>(e),
            },
            KEM_CIPHERTEXT_LEN + NONCE_LEN <= encrypted_package@.len() < KEM_CIPHERTEXT_LEN
                + NONCE_LEN + TAG_LEN ==> r == Err::<Vec<u8>, OracleError>(
                OracleError::AuthenticationFailure,
            ),
    {
        proof {
            use_type_invariant(self);
        }
        let len = encrypted_package.len();
        if len < KEM_CIPHERTEXT_LEN {
            return Err(OracleError::MalformedPackage);
        }
        let kem_part = slice_subrange(encrypted_package, 0, KEM_CIPHERTEXT_LEN);
        let key = match self.decapsulate(kem_part) {
            Ok(ss) => ss,
            Err(_) => return Err(OracleError::AuthenticationFailure),
        };
        if len - KEM_CIPHERTEXT_LEN < NONCE_LEN {
            return Err(OracleError::MalformedPackage);
        }
        let nonce = slice_subrange(encrypted_package, KEM_CIPHERTEXT_LEN, KEM_CIPHERTEXT_LEN + NONCE_LEN);
        let sealed = slice_subrange(encrypted_package, KEM_CIPHERTEXT_LEN + NONCE_LEN, len);
        match aes_gcm_decrypt(key.as_slice(), nonce, sealed) {
            Some(p) => Ok(p),
            None => Err(OracleError::AuthenticationFailure),
        }
    }
}

/// A package assembled as KEM ciphertext ‖ nonce ‖ sealed data is split back
/// into exactly those parts: it decrypts to what AES-GCM opens under the
/// decapsulated secret, and to nothing else.
pub proof fn lemma_assembled_package(
    secret: Seq<u8>,
    ciphertext: Seq<u8>,
    nonce: Seq<u8>,
    sealed: Seq<u8>,
)
    requires
        ciphertext.len() == KEM_CIPHERTEXT_LEN,
        nonce.len() == NONCE_LEN,
    ensures
        decrypt_result(secret, ciphertext + nonce + sealed) == match aes_gcm_opened(
            shared_secret_of(ciphertext, secret),
            nonce,
            sealed,
        ) {
            Some(p) => Ok::<Seq<u8>, OracleError>(p),
            None => Err(OracleError::AuthenticationFailure),
        },
{
    let pkg = ciphertext + nonce + sealed;
    let k = KEM_CIPHERTEXT_LEN as int;
    let n = NONCE_LEN as int;
    assert(pkg.subrange(0, k) =~= ciphertext);
    assert(pkg.subrange(k, k + n) =~= nonce);
    assert(pkg.subrange(k + n, pkg.len() as int) =~= sealed);
}

/// Decryption never hands out unauthenticated data: whatever it returns is
/// exactly what AES-GCM opens under the decapsulated secret, and a package
/// shorter than a KEM ciphertext is refused as malformed.
pub proof fn lemma_only_authenticated_plaintext(secret: Seq<u8>, package: Seq<u8>)
    ensures
        decrypt_result(secret, package) matches Ok(p) ==> {
            let k = KEM_CIPHERTEXT_LEN as int;
            let n = NONCE_LEN as int;
            aes_gcm_opened(
                shared_secret_of(package.subrange(0, k), secret),
                package.subrange(k, k + n),
                package.subrange(k + n, package.len() as int),
            ) == Some(p)
        },
        package.len() < KEM_CIPHERTEXT_LEN ==> decrypt_result(secret, package) == Err::<
            Seq<u8>,
            OracleError,
        >(OracleError::MalformedPackage),
{
}

} // verus!
