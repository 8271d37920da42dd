//! Assembling the detailed view of books from rows fetched in batches.
//!
//! Ratings, reading statuses and the current user's statuses are fetched for a
//! whole set of books at once; the functions here sort those rows out per book
//! and put each book together with its tags, genres and journal entries.
use vstd::prelude::*;
use std::collections::HashMap;

use crate::models::{Book, BookGenre, BookJournal, BookRating, BookStatus, BookTag, BookWithDetails};

verus! {

broadcast use vstd::std_specs::hash::group_hash_axioms;

/// What is fetched for one book on its own: its tags and genres (by name) and
/// its journal entries (newest first).
#[derive(Debug, Clone, PartialEq, Eq)]
pub struct BookExtras {
    pub tags: Vec<BookTag>,
    pub genres: Vec<BookGenre>,
    pub journals: Vec<BookJournal>,
}

/// The rows among `rows` that belong to `book_id`, in their order.
pub open spec fn rows_of_book<T>(rows: Seq<T>, book_of: spec_fn(T) -> i64, book_id: i64) -> Seq<T>
    decreases rows.len(),
{
    if rows.len() == 0 {
        Seq::empty()
    } else {
        let front = rows_of_book(rows.drop_last(), book_of, book_id);
        if book_of(rows.last()) == book_id {
            front.push(rows.last())
        } else {
            front
        }
    }
}

pub open spec fn rating_book(r: BookRating) -> i64 {
    r.book_id
}

pub open spec fn status_book(s: BookStatus) -> i64 {
    s.book_id
}

/// The ratings among `rows` for `book_id`.
pub open spec fn ratings_of(rows: Seq<BookRating>, book_id: i64) -> Seq<BookRating> {
    rows_of_book(rows, |r: BookRating| rating_book(r), book_id)
}

/// The reading statuses among `rows` for `book_id`.
pub open spec fn statuses_of(rows: Seq<BookStatus>, book_id: i64) -> Seq<BookStatus> {
    rows_of_book(rows, |s: BookStatus| status_book(s), book_id)
}

/// The status that the last of the `(book_id, status_id)` rows for `book_id`
/// records, if any row does.
pub open spec fn current_status_of(rows: Seq<(i64, i64)>, book_id: i64) -> Option<i64>
    decreases rows.len(),
{
    if rows.len() == 0 {
        None
    } else if rows.last().0 == book_id {
        Some(rows.last().1)
    } else {
        current_status_of(rows.drop_last(), book_id)
    }
}

/// `d` is `book` shown with the given tags, genres, journals, ratings,
/// statuses and current status.
pub open spec fn is_details_of(
    d: BookWithDetails,
    book: Book,
    extras: BookExtras,
    ratings: Seq<BookRating>,
    statuses: Seq<BookStatus>,
    current: Option<i64>,
) -> bool {
    &&& d.id == book.id
    &&& d.user_id == book.user_id
    &&& d.cover_image == book.cover_image
    &&& d.title == book.title
    &&& d.author == book.author
    &&& d.series == book.series
    &&& d.created_at == book.created_at
    &&& d.updated_at == book.updated_at
    &&& d.tags == extras.tags
    &&& d.genres == extras.genres
    &&& d.journals == extras.journals
    &&& d.ratings@ == ratings
    &&& d.statuses@ == statuses
    &&& d.current_user_status == current
}

/// No two of the books share an id.
pub open spec fn distinct_book_ids(books: Seq<(Book, BookExtras)>) -> bool {
    forall|i: int, j: int| 0 <= i < j < books.len() ==> books[i].0.id != books[j].0.id
}

proof fn lemma_rows_of_book_push<T>(rows: Seq<T>, row: T, book_of: spec_fn(T) -> i64, b: i64)
    ensures
        rows_of_book(rows.push(row), book_of, b) == if book_of(row) == b {
            rows_of_book(rows, book_of, b).push(row)
        } else {
            rows_of_book(rows, book_of, b)
        },
{
    assert(rows.push(row).drop_last() == rows);
}

/// Sorts rating rows out by book: each book that has a rating maps to its
/// ratings, in the order of `rows`.
pub fn group_ratings_by_book(rows: Vec<BookRating>) -> (r: HashMap<i64, Vec<BookRating>>)
    ensures
        forall|b: i64| #[trigger]
            r@.contains_key(b) <==> ratings_of(rows@, b).len() > 0,
        forall|b: i64| #[trigger] r@.contains_key(b) ==> r@[b]@ == ratings_of(rows@, b),
{
    let ghost all = rows@;
    let mut map: HashMap<i64, Vec<BookRating>> = HashMap::new();
    let mut done: Ghost<Seq<BookRating>> = Ghost(Seq::empty());
    assert(done@ =~= all.take(0));
    for row in it: rows
        invariant
            it.seq() == all,
            done@ == all.take(it.index() as int),
            forall|b: i64| #[trigger]
                map@.contains_key(b) <==> ratings_of(done@, b).len() > 0,
            forall|b: i64| #[trigger] map@.contains_key(b) ==> map@[b]@ == ratings_of(done@, b),
    {
        let ghost before = done@;
        let b = row.book_id;
        let mut group = match map.remove(&b) {
            Some(g) => g,
            None => Vec::new(),
        };
        proof {
            done@ = before.push(row);
            assert(done@ =~= all.take(it.index() as int + 1));
            assert forall|k: i64| ratings_of(done@, k) == if k == b {
                ratings_of(before, k).push(row)
            } else {
                ratings_of(before, k)
            } by {
                lemma_rows_of_book_push(before, row, |r: BookRating| rating_book(r), k);
            }
        }
        group.push(row);
        map.insert(b, group);
    }
    proof {
        assert(all.take(all.len() as int) == all);
    }
    map
}

/// Sorts reading-status rows out by book: each book that has a status maps to
/// its statuses, in the order of `rows`.
pub fn group_statuses_by_book(rows: Vec<BookStatus>) -> (r: HashMap<i64, Vec<BookStatus>>)
    ensures
        forall|b: i64| #[trigger]
            r@.contains_key(b) <==> statuses_of(rows@, b).len() > 0,
        forall|b: i64| #[trigger] r@.contains_key(b) ==> r@[b]@ == statuses_of(rows@, b),
{
    let ghost all = rows@;
    let mut map: HashMap<i64, Vec<BookStatus>> = HashMap::new();
    let mut done: Ghost<Seq<BookStatus>> = Ghost(Seq::empty());
    assert(done@ =~= all.take(0));
    for row in it: rows
        invariant
            it.seq() == all,
            done@ == all.take(it.index() as int),
            forall|b: i64| #[trigger]
                map@.contains_key(b) <==> statuses_of(done@, b).len() > 0,
            forall|b: i64| #[trigger] map@.contains_key(b) ==> map@[b]@ == statuses_of(done@, b),
    {
        let ghost before = done@;
        let b = row.book_id;
        let mut group = match map.remove(&b) {
            Some(g) => g,
            None => Vec::new(),
        };
        proof {
            done@ = before.push(row);
            assert(done@ =~= all.take(it.index() as int + 1));
            assert forall|k: i64| statuses_of(done@, k) == if k == b {
                statuses_of(before, k).push(row)
            } else {
                statuses_of(before, k)
            } by {
                lemma_rows_of_book_push(before, row, |s: BookStatus| status_book(s), k);
            }
        }
        group.push(row);
        map.insert(b, group);
    }
    proof {
        assert(all.take(all.len() as int) == all);
    }
    map
}

/// Maps each book to the status that the current user recorded for it, from
/// `(book_id, status_id)` rows; where a book has several rows the last counts.
pub fn current_user_statuses(rows: &Vec<(i64, i64)>) -> (r: HashMap<i64, i64>)
    ensures
        forall|b: i64| #[trigger]
            r@.contains_key(b) <==> current_status_of(rows@, b) is Some,
        forall|b: i64| #[trigger]
            r@.contains_key(b) ==> Some(r@[b]) == current_status_of(rows@, b),
{
    let mut map: HashMap<i64, i64> = HashMap::new();
    let mut i: usize = 0;
    while i < rows.len()
        invariant
            i <= rows.len(),
            forall|b: i64| #[trigger]
                map@.contains_key(b) <==> current_status_of(rows@.take(i as int), b) is Some,
            forall|b: i64| #[trigger]
                map@.contains_key(b) ==> Some(map@[b]) == current_status_of(
                    rows@.take(i as int),
                    b,
                ),
        decreases rows.len() - i,
    {
        let (b, s) = rows[i];
        map.insert(b, s);
        proof {
            assert(rows@.take(i + 1).drop_last() == rows@.take(i as int));
        }
        i = i + 1;
    }
    proof {
        assert(rows@.take(rows.len() as int) == rows@);
    }
    map
}

/// Puts one book together with what was fetched for it.
pub fn fetch_book_details(
    book: Book,
    extras: BookExtras,
    ratings: Vec<BookRating>,
    statuses: Vec<BookStatus>,
    current_user_status: Option<i64>,
) -> (r: BookWithDetails)
    ensures
        is_details_of(r, book, extras, ratings@, statuses@, current_user_status),
{
    BookWithDetails {
        id: book.id,
        user_id: book.user_id,
        cover_image: book.cover_image,
        title: book.title,
        author: book.author,
        created_at: book.created_at,
        updated_at: book.updated_at,
        tags: extras.tags,
        genres: extras.genres,
        series: book.series,
        journals: extras.journals,
        ratings,
        statuses,
        current_user_status,
    }
}

/// Puts each book together with its extras, with the ratings and statuses
/// among the batch rows that belong to it, and, where `current_rows` is given,
/// with the status that the current user recorded for it. A book that has no
/// ratings or statuses gets empty ones.
pub fn assemble_books_with_details(
    books: Vec<(Book, BookExtras)>,
    rating_rows: Vec<BookRating>,
    status_rows: Vec<BookStatus>,
    current_rows: Option<Vec<(i64, i64)>>,
) -> (r: Vec<BookWithDetails>)
    requires
        distinct_book_ids(books@),
    ensures
        r.len() == books.len(),
        forall|i: int|
            0 <= i < r.len() ==> is_details_of(
                #[trigger] r[i],
                books[i].0,
                books[i].1,
                ratings_of(rating_rows@, books[i].0.id),
                statuses_of(status_rows@, books[i].0.id),
                match current_rows {
                    Some(rows) => current_status_of(rows@, books[i].0.id),
                    None => None,
                },
            ),
{
    let ghost all_books = books@;
    let ghost all_ratings = rating_rows@;
    let ghost all_statuses = status_rows@;
    let ghost current_spec = match &current_rows {
        Some(rows) => Some(rows@),
        None => None::<Seq<(i64, i64)>>,
    };
    let mut ratings = group_ratings_by_book(rating_rows);
    let mut statuses = group_statuses_by_book(status_rows);
    let current = match current_rows {
        Some(rows) => Some(current_user_statuses(&rows)),
        None => None,
    };
    let mut out: Vec<BookWithDetails> = Vec::new();
    for entry in it: books
        invariant
            it.seq() == all_books,
            distinct_book_ids(all_books),
            out.len() == it.index(),
            forall|b: i64| #[trigger]
                ratings@.contains_key(b) ==> ratings@[b]@ == ratings_of(all_ratings, b),
            forall|b: i64|
                #![trigger ratings@.contains_key(b)]
                (forall|j: int| 0 <= j < it.index() ==> all_books[j].0.id != b) ==> (
                ratings@.contains_key(b) <==> ratings_of(all_ratings, b).len() > 0),
            forall|b: i64| #[trigger]
                statuses@.contains_key(b) ==> statuses@[b]@ == statuses_of(all_statuses, b),
            forall|b: i64|
                #![trigger statuses@.contains_key(b)]
                (forall|j: int| 0 <= j < it.index() ==> all_books[j].0.id != b) ==> (
                statuses@.contains_key(b) <==> statuses_of(all_statuses, b).len() > 0),
            current_spec is Some <==> current is Some,
            current is Some ==> forall|b: i64| #[trigger]
                current->0@.contains_key(b) <==> current_status_of(current_spec->0, b) is Some,
            current is Some ==> forall|b: i64| #[trigger]
                current->0@.contains_key(b) ==> Some(current->0@[b]) == current_status_of(
                    current_spec->0,
                    b,
                ),
            forall|k: int|
                0 <= k < out.len() ==> is_details_of(
                    #[trigger] out[k],
                    all_books[k].0,
                    all_books[k].1,
                    ratings_of(all_ratings, all_books[k].0.id),
                    statuses_of(all_statuses, all_books[k].0.id),
                    match current_spec {
                        Some(rows) => current_status_of(rows, all_books[k].0.id),
                        None => None,
                    },
                ),
    {
        let ghost idx = it.index();
        let (book, book_extras) = entry;
        let id = book.id;
        proof {
            assert(all_books[idx as int] == entry);
            assert forall|j: int| 0 <= j < idx implies all_books[j].0.id != id by {
                assert(distinct_book_ids(all_books));
            }
        }
        let book_ratings = match ratings.remove(&id) {
            Some(v) => v,
            None => Vec::new(),
        };
        let book_statuses = match statuses.remove(&id) {
            Some(v) => v,
            None => Vec::new(),
        };
        let status = match &current {
            Some(m) => match m.get(&id) {
                Some(s) => Some(*s),
                None => None,
            },
            None => None,
        };
        proof {
            assert(book_ratings@ =~= ratings_of(all_ratings, id));
            assert(book_statuses@ =~= statuses_of(all_statuses, id));
            assert(status == match current_spec {
                Some(rows) => current_status_of(rows, id),
                None => None,
            });
        }
        let details = fetch_book_details(book, book_extras, book_ratings, book_statuses, status);
        out.push(details);
        proof {
            assert forall|b: i64|
                #![trigger ratings@.contains_key(b)]
                (forall|j: int| 0 <= j < idx + 1 ==> all_books[j].0.id != b) implies (
                ratings@.contains_key(b) <==> ratings_of(all_ratings, b).len() > 0) by {
                assert(all_books[idx as int].0.id != b);
            }
            assert forall|b: i64|
                #![trigger statuses@.contains_key(b)]
                (forall|j: int| 0 <= j < idx + 1 ==> all_books[j].0.id != b) implies (
                statuses@.contains_key(b) <==> statuses_of(all_statuses, b).len() > 0) by {
                assert(all_books[idx as int].0.id != b);
            }
        }
    }
    out
}

} // verus!
