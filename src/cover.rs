//! Looking up a cover picture for a book that was stored without one.
//!
//! The lookup is best effort: its request is built here, the response is
//! judged here, and any failure leaves the book as it was.
use vstd::prelude::*;
use vstd::string::StringSliceAdditionalSpecFns;

verus! {

/// The service that finds a cover by title and author.
pub const BOOK_COVER_API_URL: &'static str = "https://bookcover.longitood.com/bookcover";

/// What a lookup answers when no cover can be had.
pub const DEFAULT_COVER_PATH: &'static str = "path/to/default/cover.jpg";

/// The bytes that form encoding leaves as they are.
pub open spec fn form_unchanged(b: u8) -> bool {
    b == 42 || b == 45 || b == 46 || (48 <= b <= 57) || (65 <= b <= 90) || b == 95 || (97 <= b
        <= 122)
}

pub open spec fn hex_upper(n: int) -> char {
    seq!['0', '1', '2', '3', '4', '5', '6', '7', '8', '9', 'A', 'B', 'C', 'D', 'E', 'F'][n]
}

/// One byte in `application/x-www-form-urlencoded` form: kept, a space as
/// `+`, anything else as `%` and two upper-case hex digits.
pub open spec fn form_encoded_byte(b: u8) -> Seq<char> {
    if form_unchanged(b) {
        seq![b as char]
    } else if b == 32 {
        seq!['+']
    } else {
        seq!['%', hex_upper(b as int / 16), hex_upper(b as int % 16)]
    }
}

/// A byte string in `application/x-www-form-urlencoded` form.
pub open spec fn form_encoded(bytes: Seq<u8>) -> Seq<char>
    decreases bytes.len(),
{
    if bytes.len() == 0 {
        Seq::empty()
    } else {
        form_encoded(bytes.drop_last()) + form_encoded_byte(bytes.last())
    }
}

/// Relies on `url::form_urlencoded::byte_serialize`: it keeps `*`, `-`, `.`,
/// `_` and ASCII letters and digits, writes a space as `+` and every other
/// byte of the UTF-8 text as `%XX` in upper-case hex.
#[verifier::external_body]
fn form_urlencode(s: &str) -> (r: String)
    ensures
        r@ == form_encoded(s.spec_bytes()),
{
    url::form_urlencoded::byte_serialize(s.as_bytes()).collect::<String>()
}

pub open spec fn cover_query_text(title: &str, author: &str) -> Seq<char> {
    BOOK_COVER_API_URL@ + "?book_title="@ + form_encoded(title.spec_bytes()) + "&author_name="@
        + form_encoded(author.spec_bytes())
}

/// The address that asks the cover service for a book's cover.
pub fn cover_query_url(title: &str, author: &str) -> (r: String)
    ensures
        r@ == cover_query_text(title, author),
{
    let mut q = String::from_str(BOOK_COVER_API_URL);
    q.append("?book_title=");
    let t = form_urlencode(title);
    q.append(t.as_str());
    q.append("&author_name=");
    let a = form_urlencode(author);
    q.append(a.as_str());
    q
}

/// How a cover lookup went.
pub enum CoverFetch {
    /// The request could not be sent or got no answer.
    RequestFailed,
    /// The service answered with a status other than success.
    BadStatus,
    /// The answer did not hold a cover address.
    BadBody,
    /// The service gave this cover address.
    Found(String),
}

/// What to do after a lookup.
pub enum CoverDecision {
    /// Store this address as the book's cover, and answer it.
    Store(String),
    /// Store nothing and answer the default cover path.
    UseDefault,
}

/// Decides what a lookup leads to: a found address is stored; every failure
/// falls back to the default path and leaves the book alone.
pub fn default_book_cover_decision(fetch: CoverFetch) -> (r: CoverDecision)
    ensures
        fetch matches CoverFetch::Found(url) ==> r == CoverDecision::Store(url),
        !(fetch is Found) ==> r is UseDefault,
{
    match fetch {
        CoverFetch::Found(url) => CoverDecision::Store(url),
        _ => CoverDecision::UseDefault,
    }
}

} // verus!
