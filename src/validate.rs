//! Checks on what a client sends.
use vstd::prelude::*;

use crate::errors::ApiError;
use crate::models::{Book, CreateBookRequest, UpsertRatingRequest, UpsertStatusRequest};

verus! {

/// Whether a character has the Unicode `White_Space` property.
pub uninterp spec fn unicode_white_space(c: char) -> bool;

/// Relies on `char::is_whitespace`: true exactly for the characters with the
/// Unicode `White_Space` property.
#[verifier::external_body]
fn is_white_space(c: char) -> (r: bool)
    ensures
        r == unicode_white_space(c),
{
    c.is_whitespace()
}

/// A text is blank when it holds nothing but white space (trimming it leaves
/// nothing).
pub open spec fn is_blank(s: Seq<char>) -> bool {
    forall|i: int| 0 <= i < s.len() ==> unicode_white_space(#[trigger] s[i])
}

/// Whether `s` is empty or holds white space only.
pub fn blank(s: &str) -> (r: bool)
    ensures
        r == is_blank(s@),
{
    let mut all_space = true;
    for c in it: s.chars()
        invariant
            it.seq() == s@,
            all_space == (forall|j: int| 0 <= j < it.index() ==> unicode_white_space(
                #[trigger] s@[j],
            )),
    {
        let ghost k = it.index();
        let w = is_white_space(c);
        proof {
            assert(c == s@[k as int]);
        }
        all_space = all_space && w;
        proof {
            assert(all_space == (forall|j: int| 0 <= j < k + 1 ==> unicode_white_space(
                #[trigger] s@[j],
            ))) by {
                if !w {
                    assert(!unicode_white_space(s@[k as int]));
                }
            }
        }
    }
    all_space
}

/// A book about to be stored, with the labels to link it to once it has an
/// id.
pub struct NewBook {
    pub book: Book,
    pub tags: Option<Vec<i64>>,
    pub genres: Option<Vec<i64>>,
}

/// The row that a create request stores for `user_id`: no id yet (0) and no
/// timestamps, which the database assigns.
pub open spec fn is_new_book_row(b: Book, user_id: i64, request: CreateBookRequest) -> bool {
    &&& b.id == 0
    &&& b.user_id == user_id
    &&& b.cover_image == request.cover_image
    &&& b.title == request.title
    &&& b.author == request.author
    &&& b.series == request.series
    &&& b.created_at is None
    &&& b.updated_at is None
}

/// Checks a create request and turns it into the row to store. A blank title
/// or author is a bad request.
pub fn prepare_new_book(user_id: i64, request: CreateBookRequest) -> (r: Result<NewBook, ApiError>)
    ensures
        r is Err <==> is_blank(request.title@) || is_blank(request.author@),
        r is Err ==> r == Err::<NewBook, ApiError>(ApiError::BadRequest),
        r matches Ok(n) ==> is_new_book_row(n.book, user_id, request) && n.tags == request.tags
            && n.genres == request.genres,
{
    if blank(request.title.as_str()) {
        return Err(ApiError::BadRequest);
    }
    if blank(request.author.as_str()) {
        return Err(ApiError::BadRequest);
    }
    Ok(
        NewBook {
            book: Book {
                id: 0,
                user_id,
                cover_image: request.cover_image,
                title: request.title,
                author: request.author,
                series: request.series,
                created_at: None,
                updated_at: None,
            },
            tags: request.tags,
            genres: request.genres,
        },
    )
}

/// A list of ids that is given and not empty.
pub open spec fn has_ids(ids: Option<Vec<i64>>) -> bool {
    ids matches Some(v) && v@.len() > 0
}

/// The statements that link a newly stored book to the labels that its create
/// request named: one replace-all plan per relation whose list is given and
/// not empty, tags first.
pub fn new_book_links(book_id: i64, tags: &Option<Vec<i64>>, genres: &Option<Vec<i64>>) -> (r: Vec<
    Vec<crate::statements::Statement>,
>)
    ensures
        r@.len() == (if has_ids(*tags) {
            1int
        } else {
            0
        }) + (if has_ids(*genres) {
            1int
        } else {
            0
        }),
        has_ids(*tags) ==> r@[0]@ == crate::statements::replace_links_plan(
            crate::statements::Relation::Tags,
            book_id,
            tags->0@,
        ),
        has_ids(*genres) ==> r@[r@.len() - 1]@ == crate::statements::replace_links_plan(
            crate::statements::Relation::Genres,
            book_id,
            genres->0@,
        ),
{
    let mut plans: Vec<Vec<crate::statements::Statement>> = Vec::new();
    if let Some(t) = tags {
        if t.len() > 0 {
            plans.push(crate::statements::create_book_tags(book_id, t.as_slice()));
        }
    }
    if let Some(g) = genres {
        if g.len() > 0 {
            plans.push(crate::statements::create_book_genres(book_id, g.as_slice()));
        }
    }
    plans
}

/// Whether a stored book has no usable cover, so that one is looked up.
pub fn needs_default_cover(cover_image: &Option<String>) -> (r: bool)
    ensures
        r == (cover_image matches Some(c) ==> c@.len() == 0),
{
    match cover_image {
        Some(c) => c.as_str().is_empty(),
        None => true,
    }
}

/// A book id in a path must be positive.
pub fn check_book_id(id: i64) -> (r: Result<i64, ApiError>)
    ensures
        id > 0 ==> r == Ok::<i64, ApiError>(id),
        id <= 0 ==> r == Err::<i64, ApiError>(ApiError::BadRequest),
{
    if id <= 0 {
        Err(ApiError::BadRequest)
    } else {
        Ok(id)
    }
}

/// The reading statuses a user can record.
#[derive(Debug, Clone, Copy, PartialEq, Eq, Structural)]
pub enum StatusKind {
    Unread,
    Read,
    Reading,
    ToBeRead,
    DidNotFinish,
}

pub open spec fn status_kind_id(k: StatusKind) -> i64 {
    match k {
        StatusKind::Unread => 0,
        StatusKind::Read => 1,
        StatusKind::Reading => 2,
        StatusKind::ToBeRead => 3,
        StatusKind::DidNotFinish => 99,
    }
}

/// The ids that name a reading status.
pub open spec fn is_status_id(id: i64) -> bool {
    id == 0 || id == 1 || id == 2 || id == 3 || id == 99
}

impl StatusKind {
    /// The id under which the status is stored.
    pub fn id(&self) -> (r: i64)
        ensures
            r == status_kind_id(*self),
    {
        match self {
            StatusKind::Unread => 0,
            StatusKind::Read => 1,
            StatusKind::Reading => 2,
            StatusKind::ToBeRead => 3,
            StatusKind::DidNotFinish => 99,
        }
    }

    /// The status stored under `id`, if any.
    pub fn from_id(id: i64) -> (r: Option<StatusKind>)
        ensures
            r is Some <==> is_status_id(id),
            r matches Some(k) ==> status_kind_id(k) == id,
    {
        match id {
            0 => Some(StatusKind::Unread),
            1 => Some(StatusKind::Read),
            2 => Some(StatusKind::Reading),
            3 => Some(StatusKind::ToBeRead),
            99 => Some(StatusKind::DidNotFinish),
            _ => None,
        }
    }
}

/// Checks the status of an upsert request: an id outside the known statuses
/// is a bad request.
pub fn check_status_request(request: &UpsertStatusRequest) -> (r: Result<i64, ApiError>)
    ensures
        is_status_id(request.status_id) ==> r == Ok::<i64, ApiError>(request.status_id),
        !is_status_id(request.status_id) ==> r == Err::<i64, ApiError>(ApiError::BadRequest),
{
    match StatusKind::from_id(request.status_id) {
        Some(k) => Ok(k.id()),
        None => Err(ApiError::BadRequest),
    }
}

pub open spec fn is_digit(c: char) -> bool {
    '0' <= c <= '9'
}

pub open spec fn all_digits(s: Seq<char>) -> bool {
    forall|i: int| 0 <= i < s.len() ==> is_digit(#[trigger] s[i])
}

pub open spec fn all_zeros(s: Seq<char>) -> bool {
    forall|i: int| 0 <= i < s.len() ==> #[trigger] s[i] == '0'
}

/// The value of a string of decimal digits.
pub open spec fn digits_value(s: Seq<char>) -> int
    decreases s.len(),
{
    if s.len() == 0 {
        0
    } else {
        digits_value(s.drop_last()) * 10 + (s.last() as int - '0' as int)
    }
}

/// The position of the first `.` in `s`, or its length where it has none.
pub open spec fn point_index(s: Seq<char>) -> int
    decreases s.len(),
{
    if s.len() == 0 {
        0
    } else if s[0] == '.' {
        0
    } else {
        1 + point_index(s.drop_first())
    }
}

/// How many half stars a fraction part adds: none for no digits or zeros
/// only, one for a `5` followed by zeros only.
pub open spec fn fraction_halves(f: Seq<char>) -> Option<int> {
    if all_zeros(f) {
        Some(0)
    } else if f[0] == '5' && all_zeros(f.drop_first()) {
        Some(1)
    } else {
        None
    }
}

/// The number of half stars that the decimal numeral `t` names: `t` is an
/// optional `-`, one or more digits, and optionally a `.` followed by one or
/// more digits, and its value is a multiple of one half from 0 to 5 (a minus
/// sign only on a zero value).
pub open spec fn rating_half_stars(t: Seq<char>) -> Option<int> {
    let neg = t.len() > 0 && t[0] == '-';
    let body = if neg {
        t.drop_first()
    } else {
        t
    };
    let p = point_index(body);
    let whole = body.take(p);
    let frac = if p < body.len() {
        body.skip(p + 1)
    } else {
        Seq::empty()
    };
    if whole.len() == 0 || !all_digits(whole) || (p < body.len() && (frac.len() == 0
        || !all_digits(frac))) {
        None
    } else {
        match fraction_halves(frac) {
            None => None,
            Some(half) => {
                let h = 2 * digits_value(whole) + half;
                if h > 10 || (neg && h != 0) {
                    None
                } else {
                    Some(h)
                }
            },
        }
    }
}

proof fn lemma_digits_value_nonneg(s: Seq<char>)
    requires
        all_digits(s),
    ensures
        digits_value(s) >= 0,
    decreases s.len(),
{
    if s.len() > 0 {
        assert(all_digits(s.drop_last())) by {
            assert forall|i: int| 0 <= i < s.drop_last().len() implies is_digit(
                #[trigger] s.drop_last()[i],
            ) by {
                assert(s.drop_last()[i] == s[i]);
            }
        }
        lemma_digits_value_nonneg(s.drop_last());
        assert(is_digit(s[s.len() - 1]));
    }
}

/// An accepted rating numeral names from 0 to 10 half stars.
pub proof fn lemma_rating_range(t: Seq<char>)
    ensures
        rating_half_stars(t) matches Some(h) ==> 0 <= h <= 10,
{
    let neg = t.len() > 0 && t[0] == '-';
    let body = if neg {
        t.drop_first()
    } else {
        t
    };
    let p = point_index(body);
    let whole = body.take(p);
    if whole.len() > 0 && all_digits(whole) {
        lemma_digits_value_nonneg(whole);
    }
}

proof fn lemma_point_index_bound(s: Seq<char>)
    ensures
        0 <= point_index(s) <= s.len(),
    decreases s.len(),
{
    if s.len() > 0 && s[0] != '.' {
        lemma_point_index_bound(s.drop_first());
    }
}

proof fn lemma_point_index(s: Seq<char>, i: int)
    requires
        0 <= i <= s.len(),
        forall|j: int| 0 <= j < i ==> s[j] != '.',
    ensures
        point_index(s) >= i,
        i == s.len() || s[i] == '.' ==> point_index(s) == i,
    decreases i,
{
    lemma_point_index_bound(s);
    if i > 0 {
        assert(s[0] != '.');
        assert forall|j: int| 0 <= j < i - 1 implies s.drop_first()[j] != '.' by {
            assert(s[j + 1] != '.');
        }
        lemma_point_index(s.drop_first(), i - 1);
    }
}

/// The characters of `text`, one per element.
fn chars_of(text: &str) -> (r: Vec<char>)
    ensures
        r@ == text@,
{
    let mut v: Vec<char> = Vec::new();
    for c in it: text.chars()
        invariant
            it.seq() == text@,
            v@ == text@.take(it.index() as int),
    {
        proof {
            assert(c == text@[it.index() as int]);
        }
        v.push(c);
        proof {
            assert(v@ =~= text@.take(it.index() + 1));
        }
    }
    proof {
        assert(text@.take(text@.len() as int) =~= text@);
    }
    v
}

/// Reads the digits of `t` from `start` on, up to the first other character;
/// gives where they end and their value, capped at 6.
fn scan_digits(t: &Vec<char>, start: usize) -> (r: (usize, u64))
    requires
        start <= t@.len(),
    ensures
        start <= r.0 <= t@.len(),
        all_digits(t@.subrange(start as int, r.0 as int)),
        r.0 < t@.len() ==> !is_digit(t@[r.0 as int]),
        r.1 == if digits_value(t@.subrange(start as int, r.0 as int)) < 6 {
            digits_value(t@.subrange(start as int, r.0 as int))
        } else {
            6
        },
{
    let mut i: usize = start;
    let mut value: u64 = 0;
    while i < t.len() && '0' <= t[i] && t[i] <= '9'
        invariant
            start <= i <= t@.len(),
            all_digits(t@.subrange(start as int, i as int)),
            value == if digits_value(t@.subrange(start as int, i as int)) < 6 {
                digits_value(t@.subrange(start as int, i as int))
            } else {
                6
            },
        decreases t@.len() - i,
    {
        let d = (t[i] as u32 - '0' as u32) as u64;
        proof {
            let before = t@.subrange(start as int, i as int);
            let after = t@.subrange(start as int, i + 1);
            assert(after.drop_last() =~= before);
            assert(after.last() == t@[i as int]);
            let v = digits_value(before);
            assert(digits_value(after) == v * 10 + d);
            assert(v >= 6 ==> v * 10 + d >= 6) by (nonlinear_arith);
            assert forall|j: int| 0 <= j < after.len() implies is_digit(#[trigger] after[j]) by {
                if j < before.len() {
                    assert(after[j] == before[j]);
                }
            }
        }
        value = if value * 10 + d < 6 {
            value * 10 + d
        } else {
            6
        };
        i = i + 1;
    }
    (i, value)
}

/// Whether every character of `t` from `from` on is a `0`.
fn zeros_from(t: &Vec<char>, from: usize) -> (r: bool)
    requires
        from <= t@.len(),
    ensures
        r == all_zeros(t@.skip(from as int)),
{
    let mut i: usize = from;
    while i < t.len()
        invariant
            from <= i <= t@.len(),
            forall|j: int| from <= j < i ==> t@[j] == '0',
        decreases t@.len() - i,
    {
        if t[i] != '0' {
            proof {
                assert(t@.skip(from as int)[i - from] != '0');
            }
            return false;
        }
        i = i + 1;
    }
    proof {
        assert forall|j: int| 0 <= j < t@.skip(from as int).len() implies #[trigger] t@.skip(
            from as int,
        )[j] == '0' by {
            assert(t@[from + j] == '0');
        }
    }
    true
}

/// Reads a star rating given as a decimal numeral, such as `4.5`, into a count
/// of half stars. A numeral that is malformed, out of the range 0 to 5, or not
/// a multiple of one half is a bad request.
pub fn parse_rating(text: &str) -> (r: Result<u8, ApiError>)
    ensures
        rating_half_stars(text@) is None ==> r == Err::<u8, ApiError>(ApiError::BadRequest),
        rating_half_stars(text@) matches Some(h) ==> r == Ok::<u8, ApiError>(h as u8) && 0 <= h
            <= 10,
{
    proof {
        lemma_rating_range(text@);
    }
    let t = chars_of(text);
    let ghost s = text@;
    let n = t.len();
    let neg = n > 0 && t[0] == '-';
    let start: usize = if neg {
        1
    } else {
        0
    };
    let ghost body = if neg {
        s.drop_first()
    } else {
        s
    };
    assert(body =~= s.skip(start as int));
    let (i, whole) = scan_digits(&t, start);
    let ghost p = i - start;
    proof {
        assert(s.subrange(start as int, i as int) =~= body.take(p));
        assert forall|j: int| 0 <= j < p implies body[j] != '.' by {
            assert(body.take(p)[j] == body[j]);
            assert(is_digit(body.take(p)[j]));
        }
    }
    if i < n && t[i] != '.' {
        proof {
            assert(body[p] == t@[i as int]);
            lemma_point_index(body, p + 1);
            lemma_point_index_bound(body);
            let q = point_index(body);
            assert(body.take(q)[p] == t@[i as int]);
            assert(!all_digits(body.take(q)));
        }
        return Err(ApiError::BadRequest);
    }
    proof {
        lemma_point_index(body, p);
        assert(point_index(body) == p);
    }
    if i == start {
        return Err(ApiError::BadRequest);
    }
    let mut half: u64 = 0;
    if i < n {
        let ghost frac = body.skip(p + 1);
        if i + 1 == n {
            proof {
                assert(frac.len() == 0);
            }
            return Err(ApiError::BadRequest);
        }
        let first = t[i + 1];
        let rest_zero = zeros_from(&t, i + 2);
        proof {
            assert(frac[0] == first);
            assert(frac.drop_first() =~= s.skip(i + 2));
        }
        if !rest_zero || (first != '0' && first != '5') {
            proof {
                if !rest_zero {
                    let m = choose|m: int| 0 <= m < frac.drop_first().len() && #[trigger]
                        frac.drop_first()[m] != '0';
                    assert(frac[m + 1] != '0');
                }
                assert(!all_zeros(frac));
            }
            return Err(ApiError::BadRequest);
        }
        proof {
            assert(all_digits(frac)) by {
                assert forall|m: int| 0 <= m < frac.len() implies is_digit(#[trigger] frac[m]) by {
                    if m > 0 {
                        assert(frac.drop_first()[m - 1] == '0');
                    }
                }
            }
            if first == '0' {
                assert(all_zeros(frac)) by {
                    assert forall|m: int| 0 <= m < frac.len() implies #[trigger] frac[m]
                        == '0' by {
                        if m > 0 {
                            assert(frac.drop_first()[m - 1] == '0');
                        }
                    }
                }
                assert(fraction_halves(frac) == Some(0int));
            } else {
                assert(!all_zeros(frac));
                assert(fraction_halves(frac) == Some(1int));
            }
        }
        if first == '5' {
            half = 1;
        }
    } else {
        proof {
            assert(all_zeros(Seq::<char>::empty()));
            assert(fraction_halves(Seq::<char>::empty()) == Some(0int));
        }
    }
    let h = 2 * whole + half;
    if h > 10 {
        return Err(ApiError::BadRequest);
    }
    if neg && h != 0 {
        return Err(ApiError::BadRequest);
    }
    Ok(h as u8)
}

/// Checks the rating of an upsert request and gives it in half stars.
pub fn check_rating_request(request: &UpsertRatingRequest) -> (r: Result<u8, ApiError>)
    ensures
        rating_half_stars(request.rating@) is None ==> r == Err::<u8, ApiError>(
            ApiError::BadRequest,
        ),
        rating_half_stars(request.rating@) matches Some(h) ==> r == Ok::<u8, ApiError>(h as u8)
            && 0 <= h <= 10,
{
    parse_rating(request.rating.as_str())
}

} // verus!
