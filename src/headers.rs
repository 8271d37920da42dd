//! Reading the requesting user's id from the `currentUserId` header.
use vstd::prelude::*;

use crate::errors::ApiError;
use crate::validate::{all_digits, digits_value};

verus! {

/// The `currentUserId` header as the request carried it.
pub enum RawHeader {
    /// The request has no such header.
    Missing,
    /// The header holds bytes that are not visible ASCII.
    NotText,
    /// The header's text.
    Text(String),
}

/// The value of `t` read as a decimal `i64`: an optional `+` or `-` followed by
/// one or more digits, with nothing else, and a value in range.
pub open spec fn decimal_i64(t: Seq<char>) -> Option<int> {
    let signed = t.len() > 0 && (t[0] == '-' || t[0] == '+');
    let digits = if signed {
        t.drop_first()
    } else {
        t
    };
    let v = if signed && t[0] == '-' {
        -digits_value(digits)
    } else {
        digits_value(digits)
    };
    if digits.len() == 0 || !all_digits(digits) || v < i64::MIN || v > i64::MAX {
        None
    } else {
        Some(v)
    }
}

/// The user id that a header gives, if any.
pub open spec fn header_user_id(header: RawHeader) -> Option<int> {
    match header {
        RawHeader::Text(t) => decimal_i64(t@),
        _ => None,
    }
}

/// Relies on `str::parse::<i64>`: it accepts an optional sign followed by
/// decimal digits, and nothing else, when the value fits in an `i64`.
#[verifier::external_body]
fn parse_i64(s: &str) -> (r: Option<i64>)
    ensures
        decimal_i64(s@) is None ==> r is None,
        decimal_i64(s@) matches Some(v) ==> r == Some(v as i64),
{
    s.parse::<i64>().ok()
}

/// The requesting user's id. A missing header, one that is not text, and one
/// that is not a decimal `i64` are all bad requests.
pub fn extract_user_id_from_headers(header: &RawHeader) -> (r: Result<i64, ApiError>)
    ensures
        header_user_id(*header) matches Some(v) ==> r == Ok::<i64, ApiError>(v as i64),
        header_user_id(*header) is None ==> r == Err::<i64, ApiError>(ApiError::BadRequest),
{
    match header {
        RawHeader::Missing => Err(ApiError::BadRequest),
        RawHeader::NotText => Err(ApiError::BadRequest),
        RawHeader::Text(t) => match parse_i64(t.as_str()) {
            Some(id) => Ok(id),
            None => Err(ApiError::BadRequest),
        },
    }
}

/// The requesting user's id where the header is optional: any header that
/// does not give one counts as no user.
pub fn optional_user_id(header: &RawHeader) -> (r: Option<i64>)
    ensures
        header_user_id(*header) matches Some(v) ==> r == Some(v as i64),
        header_user_id(*header) is None ==> r is None,
{
    match extract_user_id_from_headers(header) {
        Ok(id) => Some(id),
        Err(_) => None,
    }
}

} // verus!
