use rofl_kyc_oracle::kyc_verifier::{
    calculate_age, check_ofac_sanctions, compute_user_hash, current_timestamp, verify_kyc_at,
    year_of,
};
use rofl_kyc_oracle::oracle::outcome_of;
use rofl_kyc_oracle::{verify_kyc, KYCDocument, KYCResult, OracleError};
use sha3::{Digest, Keccak256};

fn doc(name: &str, birth: &str, number: &str) -> KYCDocument {
    KYCDocument {
        full_name: name.to_string(),
        birth_date: birth.to_string(),
        nationality: "TW".to_string(),
        document_type: "passport".to_string(),
        document_number: number.to_string(),
    }
}

const NOV_2023: u64 = 1_700_000_000;

#[test]
fn valid_document_passes() {
    let r = verify_kyc_at(doc("Alice", "2000-01-01", "A1234567"), NOV_2023);
    assert!(r.is_valid);
    assert_eq!(r.verification_level, 2);
    assert_eq!(r.failure_reason, None);
    assert_eq!(r.timestamp, NOV_2023);
    let expected = format!("0x{}", hex::encode(Keccak256::digest(b"Alice2000-01-01")));
    assert_eq!(r.user_hash, expected);
}

#[test]
fn underage_is_refused() {
    let r = verify_kyc_at(doc("Bob", "2010-05-05", "A1234567"), NOV_2023);
    assert!(!r.is_valid);
    assert_eq!(r.verification_level, 0);
    assert_eq!(r.failure_reason, Some("Age below 18: 13".to_string()));
}

#[test]
fn age_follows_the_current_year() {
    let r = verify_kyc_at(doc("Bob", "2005-05-05", "A1234567"), NOV_2023);
    assert_eq!(r.failure_reason, None);
    assert!(r.is_valid);
}

#[test]
fn malformed_birth_date_is_refused() {
    let r = verify_kyc_at(doc("Carol", "2000/01/01", "A1234567"), NOV_2023);
    assert!(!r.is_valid);
    assert_eq!(
        r.failure_reason,
        Some("Invalid birth date: Invalid date format".to_string())
    );
    let r = verify_kyc_at(doc("Carol", "abcd-01-01", "A1234567"), NOV_2023);
    assert_eq!(r.failure_reason, Some("Invalid birth date: Invalid year".to_string()));
    let r = verify_kyc_at(doc("Carol", "2099-01-01", "A1234567"), NOV_2023);
    assert_eq!(r.failure_reason, Some("Invalid birth date: Invalid year".to_string()));
}

#[test]
fn sanctioned_name_is_refused() {
    let r = verify_kyc_at(doc("Mr Kim Jong Un", "1984-01-08", "A1234567"), NOV_2023);
    assert!(!r.is_valid);
    assert_eq!(r.failure_reason, Some("On OFAC sanctions list".to_string()));
}

#[test]
fn short_document_number_is_refused() {
    let r = verify_kyc_at(doc("Dave", "1990-01-01", "12345"), NOV_2023);
    assert!(!r.is_valid);
    assert_eq!(r.failure_reason, Some("Invalid document number".to_string()));
    let r = verify_kyc_at(doc("Dave", "1990-01-01", "123456"), NOV_2023);
    assert!(r.is_valid);
}

#[test]
fn verify_kyc_uses_the_clock() {
    let before = current_timestamp();
    let r = verify_kyc(doc("Alice", "2000-01-01", "A1234567"));
    assert!(r.timestamp >= before);
    assert!(r.is_valid);
}

#[test]
fn years_of_timestamps() {
    assert_eq!(year_of(0), 1970);
    assert_eq!(year_of(NOV_2023), 2023);
    assert_eq!(year_of(951_782_400), 2000);
    assert_eq!(year_of(978_307_199), 2000);
    assert_eq!(year_of(978_307_200), 2001);
    assert_eq!(year_of(1_735_689_599), 2024);
    assert_eq!(year_of(1_735_689_600), 2025);
}

#[test]
fn ages_from_birth_dates() {
    assert_eq!(calculate_age("2000-01-01", 2025), Ok(25));
    assert_eq!(calculate_age("+2000-01-01", 2025), Ok(25));
    assert_eq!(calculate_age("2025-01-01", 2025), Ok(0));
    assert_eq!(calculate_age("2000-01", 2025), Err("Invalid date format".to_string()));
    assert_eq!(calculate_age("2000-01-01-01", 2025), Err("Invalid date format".to_string()));
    assert_eq!(calculate_age("-01-01", 2025), Err("Invalid year".to_string()));
}

#[test]
fn sanction_list_matches_substrings() {
    assert!(check_ofac_sanctions("Vladimir Putin"));
    assert!(check_ofac_sanctions("Dr. Vladimir Putin Jr."));
    assert!(!check_ofac_sanctions("Vladimir"));
    assert!(!check_ofac_sanctions(""));
}

#[test]
fn user_hash_is_prefixed_lower_hex() {
    let h = compute_user_hash(&doc("Alice", "2000-01-01", "A1234567"));
    assert_eq!(h.len(), 66);
    assert!(h.starts_with("0x"));
    assert_eq!(h, format!("0x{}", hex::encode(Keccak256::digest("Alice2000-01-01".as_bytes()))));
}

#[test]
fn outcome_carries_decoded_user_hash() {
    let r = verify_kyc_at(doc("Alice", "2000-01-01", "A1234567"), NOV_2023);
    let o = outcome_of(&r).unwrap();
    assert_eq!(o.user_hash, Keccak256::digest(b"Alice2000-01-01").to_vec());
    assert!(o.is_valid);
    assert_eq!(o.verification_level, 2);
    assert_eq!(o.timestamp, NOV_2023);
}

#[test]
fn outcome_refuses_bad_user_hash() {
    let r = KYCResult {
        is_valid: true,
        user_hash: "0x1234".to_string(),
        timestamp: 1,
        verification_level: 2,
        failure_reason: None,
    };
    assert!(matches!(outcome_of(&r), Err(OracleError::ValidationError)));
    let r = KYCResult { user_hash: "0xnothex".to_string(), ..r };
    assert!(matches!(outcome_of(&r), Err(OracleError::ValidationError)));
}
