//! Attestation oracle core: hybrid (Kyber768 + AES-256-GCM) decryption of
//! identity submissions, the eligibility policy, and recoverable secp256k1
//! signing of a fixed-layout attestation digest.

pub mod error;
pub mod hexcodec;
pub mod keccak;
pub mod kyc_verifier;
pub mod digest;
pub mod oracle;
pub mod pqc_module;
pub mod signature;
pub mod text;

pub use error::OracleError;
pub use signature::ECDSASigner;
pub use pqc_module::KyberHandler;
pub use kyc_verifier::{verify_kyc, KYCDocument, KYCResult};
