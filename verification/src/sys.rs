//! Adapters to the outside world that the core relies on: random tokens,
//! build identifiers, and the clock.  Each is a thin call into an outside
//! crate; the contract states only what that crate's source shows.

use vstd::prelude::*;
use rand::distr::SampleString;

verus! {

/// An ASCII letter or digit.
pub open spec fn is_alphanumeric_char(c: char) -> bool {
    ('a' <= c && c <= 'z') || ('A' <= c && c <= 'Z') || ('0' <= c && c <= '9')
}

/// Relies on rand's `Alphanumeric` distribution sampled through
/// `SampleString::sample_string`: it appends exactly `length` bytes, each
/// drawn from `A-Z`, `a-z`, `0-9`.  Which characters come out is chance.
#[verifier::external_body]
pub fn generate_token(length: usize) -> (r: String)
    ensures
        r@.len() == length,
        forall|i: int| 0 <= i < r@.len() ==> is_alphanumeric_char(#[trigger] r@[i]),
{
    rand::distr::Alphanumeric.sample_string(&mut rand::rng(), length)
}

/// Relies on `uuid::Uuid::new_v4` and its `Display` form: a random UUID
/// rendered as 36 characters (32 hexadecimal digits and 4 hyphens).
/// Which identifier comes out is chance.
#[verifier::external_body]
pub fn generate_build_id() -> (r: String)
    ensures
        r@.len() == 36,
{
    uuid::Uuid::new_v4().to_string()
}

/// Relies on `chrono::Utc::now` and `DateTime::timestamp`: the clock's
/// current Unix second.  Nothing can be promised of the clock's reading.
#[verifier::external_body]
pub fn now_unix() -> (r: i64)
{
    chrono::Utc::now().timestamp()
}

/// The RFC 3339 text of a Unix second in UTC, whatever
/// `chrono`'s formatter produces for it.
pub uninterp spec fn rfc3339_of(t: int) -> Seq<char>;

/// Relies on `chrono::DateTime::from_timestamp` and `to_rfc3339`: the
/// RFC 3339 rendering of a Unix second, a function of the second alone;
/// `None` exactly when chrono rejects the second as out of range.
#[verifier::external_body]
pub fn format_rfc3339(t: i64) -> (r: Option<String>)
    ensures
        r matches Some(s) ==> s@ == rfc3339_of(t as int),
{
    chrono::DateTime::from_timestamp(t, 0).map(|dt| dt.to_rfc3339())
}

} // verus!
