use vstd::prelude::*;
use vstd::string::*;
use crate::hexcodec::{hex_encode, hex_of};
use crate::keccak::{keccak256, keccak256_of};
use vstd::utf8::encode_utf8;

verus! {

/// The identity record that a submission decrypts to.
pub struct KYCDocument {
    pub full_name: String,
    pub birth_date: String,
    pub nationality: String,
    pub document_type: String,
    pub document_number: String,
}

/// The outcome of the eligibility policy.
pub struct KYCResult {
    pub is_valid: bool,
    /// "0x" followed by the lower-case hexadecimal user hash.
    pub user_hash: String,
    /// Seconds since the Unix epoch.
    pub timestamp: u64,
    pub verification_level: u8,
    pub failure_reason: Option<String>,
}

/// Minimum age for a valid verification.
pub const MINIMUM_AGE: u64 = 18;

/// Minimum length, in bytes, of a document number.
pub const MINIMUM_DOCUMENT_NUMBER_LEN: usize = 6;

/// Level granted to a valid verification.
pub const VALID_LEVEL: u8 = 2;

/// Whether `needle` occurs in `hay`.
pub open spec fn contains_text(hay: Seq<char>, needle: Seq<char>) -> bool {
    exists|i: int| 0 <= i && i + needle.len() <= hay.len() && #[trigger] hay.subrange(i, i + needle.len()) == needle
}

/// Relies on `str::contains` with a `&str` pattern: whether the pattern occurs in the text.
#[verifier::external_body]
fn text_contains(hay: &str, needle: &str) -> (r: bool)
    ensures
        r == contains_text(hay@, needle@),
{
    hay.contains(needle)
}

/// The value of a string of decimal digits.
pub open spec fn digits_value(s: Seq<char>) -> int
    decreases s.len(),
{
    if s.len() == 0 {
        0
    } else {
        10 * digits_value(s.drop_last()) + (s.last() as int - '0' as int)
    }
}

/// Unsigned decimal text as `u32` parsing reads it: an optional '+', then one
/// or more ASCII digits, with a value that fits in 32 bits.
pub open spec fn parsed_u32(s: Seq<char>) -> Option<u32> {
    let d = if s.len() > 0 && s[0] == '+' {
        s.subrange(1, s.len() as int)
    } else {
        s
    };
    if d.len() > 0 && (forall|i: int| 0 <= i < d.len() ==> '0' <= #[trigger] d[i] && d[i] <= '9')
        && digits_value(d) <= u32::MAX {
        Some(digits_value(d) as u32)
    } else {
        None
    }
}

/// Relies on `str::parse::<u32>`: an optional '+', then ASCII digits, with a
/// value below 2^32; anything else is refused.
#[verifier::external_body]
fn parse_u32(s: &str) -> (r: Option<u32>)
    ensures
        r == parsed_u32(s@),
{
    s.parse::<u32>().ok()
}

/// The decimal digit of a value below ten.
pub open spec fn decimal_digit(n: int) -> char {
    seq!['0', '1', '2', '3', '4', '5', '6', '7', '8', '9'][n]
}

/// Decimal text of a natural number, without leading zeros.
pub open spec fn decimal_of(n: nat) -> Seq<char>
    decreases n,
{
    if n < 10 {
        seq![decimal_digit(n as int)]
    } else {
        decimal_of(n / 10) + seq![decimal_digit((n % 10) as int)]
    }
}

/// Relies on `u64::to_string`: the decimal text of the value.
#[verifier::external_body]
fn decimal_text(n: u64) -> (r: String)
    ensures
        r@ == decimal_of(n as nat),
{
    n.to_string()
}

#[verifier::external_type_specification]
#[verifier::external_body]
pub struct ExSystemTime(std::time::SystemTime);

/// Relies on `std::time::SystemTime::now`: the current reading of the system clock.
#[verifier::external_body]
fn system_now() -> (r: std::time::SystemTime) {
    std::time::SystemTime::now()
}

/// Relies on `std::time::SystemTime::duration_since` with the Unix epoch:
/// `None` where the time lies before the epoch.
#[verifier::external_body]
fn since_unix_epoch(t: &std::time::SystemTime) -> (r: Option<std::time::Duration>) {
    t.duration_since(std::time::UNIX_EPOCH).ok()
}

/// Relies on `std::time::Duration::as_secs`: the whole seconds of a duration.
#[verifier::external_body]
fn whole_seconds(d: &std::time::Duration) -> (r: u64) {
    d.as_secs()
}

/// Gregorian leap years.
pub open spec fn is_leap_year(y: int) -> bool {
    y % 4 == 0 && (y % 100 != 0 || y % 400 == 0)
}

/// Number of days in year `y`.
pub open spec fn year_days(y: int) -> int {
    if is_leap_year(y) {
        366
    } else {
        365
    }
}

/// The year reached after counting `days` whole days from 1 January of `y`.
pub open spec fn year_after(days: nat, y: int) -> int
    decreases days,
{
    if days < year_days(y) {
        y
    } else {
        year_after((days - year_days(y)) as nat, y + 1)
    }
}

/// The calendar year (UTC) of a Unix timestamp.
pub open spec fn year_of_timestamp(t: u64) -> int {
    year_after((t / 86400) as nat, 1970)
}

/// Number of '-' characters in a text.
pub open spec fn dash_count(s: Seq<char>) -> nat
    decreases s.len(),
{
    if s.len() == 0 {
        0
    } else {
        dash_count(s.drop_last()) + if s.last() == '-' {
            1nat
        } else {
            0nat
        }
    }
}

/// Index of the first '-' in a text, or its length where there is none.
pub open spec fn first_dash(s: Seq<char>) -> int
    decreases s.len(),
{
    if s.len() == 0 {
        0
    } else if first_dash(s.drop_last()) < s.len() - 1 {
        first_dash(s.drop_last())
    } else if s.last() == '-' {
        s.len() - 1
    } else {
        s.len() as int
    }
}

/// The age that a birth date "YYYY-MM-DD" gives in `current_year`, or the
/// reason it is refused: not three '-'-separated fields, or a year that is
/// not a number or lies after `current_year`.
pub open spec fn age_result(birth_date: Seq<char>, current_year: int) -> Result<int, Seq<char>> {
    if dash_count(birth_date) != 2 {
        Err("Invalid date format"@)
    } else {
        match parsed_u32(birth_date.subrange(0, first_dash(birth_date))) {
            Some(y) => if y > current_year {
                Err("Invalid year"@)
            } else {
                Ok(current_year - y)
            },
            None => Err("Invalid year"@),
        }
    }
}

/// Whether a name holds one of the sanctioned names.
pub open spec fn is_sanctioned(name: Seq<char>) -> bool {
    contains_text(name, "Vladimir Putin"@) || contains_text(name, "Kim Jong Un"@)
}

/// Why the policy refuses a document in `current_year`, or `None` where it passes.
pub open spec fn failure_reason_of(doc: KYCDocument, current_year: int) -> Option<Seq<char>> {
    match age_result(doc.birth_date@, current_year) {
        Err(e) => Some("Invalid birth date: "@ + e),
        Ok(age) => if age < MINIMUM_AGE {
            Some("Age below 18: "@ + decimal_of(age as nat))
        } else if is_sanctioned(doc.full_name@) {
            Some("On OFAC sanctions list"@)
        } else if encode_utf8(doc.document_number@).len() < MINIMUM_DOCUMENT_NUMBER_LEN {
            Some("Invalid document number"@)
        } else {
            None
        },
    }
}

/// The user hash as text: "0x" and the hexadecimal Keccak-256 of the UTF-8
/// bytes of the full name followed by the birth date.
pub open spec fn user_hash_text(doc: KYCDocument) -> Seq<char> {
    seq!['0', 'x'] + hex_of(keccak256_of(encode_utf8(doc.full_name@ + doc.birth_date@)))
}

/// The view of an optional text.
pub open spec fn text_option(o: Option<String>) -> Option<Seq<char>> {
    match o {
        Some(s) => Some(s@),
        None => None,
    }
}

/// What the policy decides for a document at a given time.
pub open spec fn kyc_result_matches(r: KYCResult, doc: KYCDocument, timestamp: u64) -> bool {
    let reason = failure_reason_of(doc, year_of_timestamp(timestamp));
    &&& r.is_valid == (reason is None)
    &&& r.verification_level == if reason is None {
        VALID_LEVEL
    } else {
        0u8
    }
    &&& text_option(r.failure_reason) == reason
    &&& r.user_hash@ == user_hash_text(doc)
    &&& r.timestamp == timestamp
}

/// The calendar year (UTC) of a Unix timestamp.
pub fn year_of(timestamp: u64) -> (r: u64)
    ensures
        r as int == year_of_timestamp(timestamp),
{
    let total: u64 = timestamp / 86400;
    let mut days: u64 = total;
    let mut y: u64 = 1970;
    loop
        invariant
            days <= total,
            total == timestamp / 86400,
            1970 <= y,
            y - 1970 <= total - days,
            year_after(days as nat, y as int) == year_of_timestamp(timestamp),
        decreases days,
    {
        let len: u64 = if y % 4 == 0 && (y % 100 != 0 || y % 400 == 0) {
            366
        } else {
            365
        };
        if days < len {
            return y;
        }
        days = days - len;
        y = y + 1;
    }
}

/// The current time in seconds since the Unix epoch; 0 where the clock reads
/// earlier than the epoch.
pub fn current_timestamp() -> (r: u64) {
    let now = system_now();
    match since_unix_epoch(&now) {
        Some(d) => whole_seconds(&d),
        None => 0,
    }
}

/// The age that a birth date "YYYY-MM-DD" gives in `current_year`.
pub fn calculate_age(birth_date: &str, current_year: u64) -> (r: Result<u64, String>)
    ensures
        match age_result(birth_date@, current_year as int) {
            Ok(a) => r == Ok::<u64, String>(a as u64),
            Err(e) => r matches Err(m) && m@ == e,
        },
{
    let n = birth_date.unicode_len();
    let mut dashes: u64 = 0;
    let mut first: usize = n;
    let mut i: usize = 0;
    assert(birth_date@.subrange(0, 0) =~= Seq::<char>::empty());
    while i < n
        invariant
            n == birth_date@.len(),
            i <= n,
            dashes == dash_count(birth_date@.subrange(0, i as int)),
            dashes <= i,
            first == if first_dash(birth_date@.subrange(0, i as int)) < i {
                first_dash(birth_date@.subrange(0, i as int))
            } else {
                n as int
            },
            first_dash(birth_date@.subrange(0, i as int)) <= i,
        decreases n - i,
    {
        let c = birth_date.get_char(i);
        assert(birth_date@.subrange(0, i + 1).drop_last() =~= birth_date@.subrange(0, i as int));
        if c == '-' {
            dashes = dashes + 1;
            if first == n {
                first = i;
            }
        }
        i = i + 1;
    }
    assert(birth_date@.subrange(0, n as int) =~= birth_date@);
    if dashes != 2 {
        return Err(String::from_str("Invalid date format"));
    }
    let year_text = birth_date.substring_char(0, first);
    match parse_u32(year_text) {
        Some(y) => {
            if y as u64 > current_year {
                Err(String::from_str("Invalid year"))
            } else {
                Ok(current_year - y as u64)
            }
        },
        None => Err(String::from_str("Invalid year")),
    }
}

/// Whether a name holds one of the sanctioned names.
pub fn check_ofac_sanctions(name: &str) -> (r: bool)
    ensures
        r == is_sanctioned(name@),
{
    text_contains(name, "Vladimir Putin") || text_contains(name, "Kim Jong Un")
}

/// The user hash of a document, as "0x" and 64 hexadecimal digits.
pub fn compute_user_hash(doc: &KYCDocument) -> (r: String)
    ensures
        r@ == user_hash_text(*doc),
        r@.len() == 66,
{
    let mut combined = String::from_str(doc.full_name.as_str());
    combined.append(doc.birth_date.as_str());
    let hash = keccak256(combined.as_str().as_bytes());
    let digits = hex_encode(hash.as_slice());
    proof {
        reveal_strlit("0x");
    }
    String::from_str("0x").concat(digits.as_str())
}

/// The policy's verdict on a document at a given time.
pub fn verify_kyc_at(doc: KYCDocument, timestamp: u64) -> (r: KYCResult)
    ensures
        kyc_result_matches(r, doc, timestamp),
        r.user_hash@.len() == 66,
{
    let user_hash = compute_user_hash(&doc);
    let year = year_of(timestamp);
    let reason: Option<String> = match calculate_age(doc.birth_date.as_str(), year) {
        Err(e) => {
            Some(String::from_str("Invalid birth date: ").concat(e.as_str()))
        },
        Ok(age) => {
            if age < MINIMUM_AGE {
                Some(String::from_str("Age below 18: ").concat(decimal_text(age).as_str()))
            } else if check_ofac_sanctions(doc.full_name.as_str()) {
                Some(String::from_str("On OFAC sanctions list"))
            } else if doc.document_number.as_str().as_bytes().len() < MINIMUM_DOCUMENT_NUMBER_LEN {
                Some(String::from_str("Invalid document number"))
            } else {
                None
            }
        },
    };
    let valid = reason.is_none();
    KYCResult {
        is_valid: valid,
        user_hash,
        timestamp,
        verification_level: if valid {
            VALID_LEVEL
        } else {
            0
        },
        failure_reason: reason,
    }
}

/// The policy's verdict on a document now.
pub fn verify_kyc(doc: KYCDocument) -> (r: KYCResult)
    ensures
        kyc_result_matches(r, doc, r.timestamp),
        r.user_hash@.len() == 66,
{
    let now = current_timestamp();
    verify_kyc_at(doc, now)
}

} // verus!
