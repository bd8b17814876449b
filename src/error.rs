use vstd::prelude::*;

verus! {

/// Errors of the decryption and signing pipeline.
///
/// Failures of the key-encapsulation and of the authenticated-encryption layer
/// are reported as one undifferentiated `AuthenticationFailure`, so that a
/// caller cannot learn which layer rejected a submission.
#[derive(Debug, Clone, Copy, PartialEq, Eq, Structural)]
pub enum OracleError {
    /// The encrypted submission is too short to hold its fixed-size parts.
    MalformedPackage,
    /// Decapsulation or tag verification failed.
    AuthenticationFailure,
    /// Malformed input to signing (a digest that is not 32 bytes long).
    ValidationError,
    /// No recovery identifier reproduces the signer's public key.
    SigningError,
    /// Key material refused at construction time.
    ConfigurationError,
}

} // verus!
