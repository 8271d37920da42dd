//! The reads that are built at run time, and how their results are answered.
use vstd::prelude::*;

use crate::errors::ApiError;
use crate::models::{BookInList, JournalEntry, List, ListUser, ListWithBooks};

verus! {

/// `n` placeholders separated by commas.
pub open spec fn placeholder_list(n: nat) -> Seq<char>
    decreases n,
{
    if n == 0 {
        Seq::empty()
    } else if n == 1 {
        seq!['?']
    } else {
        placeholder_list((n - 1) as nat) + seq![',', '?']
    }
}

/// `?,?,...,?` with `n` placeholders.
pub fn placeholders(n: usize) -> (r: String)
    ensures
        r@ == placeholder_list(n as nat),
{
    let mut s = String::new();
    let mut i: usize = 0;
    while i < n
        invariant
            i <= n,
            s@ == placeholder_list(i as nat),
        decreases n - i,
    {
        if i == 0 {
            s.append("?");
            proof {
                reveal_strlit("?");
                assert(s@ =~= placeholder_list(1));
            }
        } else {
            s.append(",?");
            proof {
                reveal_strlit(",?");
                assert(s@ =~= placeholder_list((i + 1) as nat));
            }
        }
        i = i + 1;
    }
    s
}

/// Every book, most recently changed first.
pub const ALL_BOOKS_SQL: &'static str = "SELECT id, user_id, cover_image, title, author, series, created_at, updated_at FROM books ORDER BY updated_at DESC";

/// The books whose title, author or series matches a `LIKE` pattern (bound
/// three times), most recently changed first.
pub const SEARCH_BOOKS_SQL: &'static str = "SELECT id, user_id, cover_image, title, author, series, created_at, updated_at FROM books WHERE title LIKE ? OR author LIKE ? OR series LIKE ? ORDER BY updated_at DESC";

/// One book by id.
pub const BOOK_BY_ID_SQL: &'static str = "SELECT id, user_id, cover_image, title, author, series, created_at, updated_at FROM books WHERE id = ?";

/// A book's tags, by name.
pub const BOOK_TAGS_SQL: &'static str = "SELECT t.id, t.name, t.color FROM tags t INNER JOIN book_tags bt ON t.id = bt.tag_id WHERE bt.book_id = ? ORDER BY t.name";

/// A book's genres, by name.
pub const BOOK_GENRES_SQL: &'static str = "SELECT g.id, g.name, g.color FROM genres g INNER JOIN book_genres bg ON g.id = bg.genre_id WHERE bg.book_id = ? ORDER BY g.name";

/// A book's journal entries with their authors, newest first.
pub const BOOK_JOURNALS_SQL: &'static str = "SELECT je.id, je.title, je.content, je.created_at, je.updated_at, u.id as user_id, u.name as user_name, u.color FROM journal_entries je INNER JOIN users u ON je.user_id = u.id WHERE je.book_id = ? ORDER BY je.created_at DESC";

pub const RATINGS_HEAD: &'static str = "SELECT r.id, r.user_id, r.book_id, r.rating, r.created_at, r.updated_at, u.name as user_name, u.color as user_color FROM ratings r INNER JOIN users u ON r.user_id = u.id WHERE r.book_id IN (";

pub const RATINGS_TAIL: &'static str = ") ORDER BY r.created_at DESC";

pub const STATUSES_HEAD: &'static str = "SELECT rs.id, rs.user_id, rs.book_id, rs.status_id, rs.created_at, rs.updated_at, s.name as status_name, u.name as user_name, u.color as user_color FROM reading_status rs INNER JOIN users u ON rs.user_id = u.id INNER JOIN status s ON rs.status_id = s.id WHERE rs.book_id IN (";

pub const STATUSES_TAIL: &'static str = ") ORDER BY rs.created_at DESC";

pub const CURRENT_STATUSES_HEAD: &'static str = "SELECT book_id, status_id FROM reading_status WHERE user_id = ? AND book_id IN (";

pub const CURRENT_STATUSES_TAIL: &'static str = ")";

/// A query that reads rows for `n` books at once, between `head` and `tail`;
/// none where there are no books.
pub open spec fn batch_text(head: Seq<char>, n: nat, tail: Seq<char>) -> Option<Seq<char>> {
    if n == 0 {
        None
    } else {
        Some(head + placeholder_list(n) + tail)
    }
}

fn batch_query(head: &str, n: usize, tail: &str) -> (r: Option<String>)
    ensures
        r matches Some(q) ==> batch_text(head@, n as nat, tail@) == Some(q@),
        r is None <==> n == 0,
{
    if n == 0 {
        return None;
    }
    let mut q = String::from_str(head);
    let p = placeholders(n);
    q.append(p.as_str());
    q.append(tail);
    Some(q)
}

/// The query that reads the ratings of `n` books with their authors, newest
/// first, one book id bound per placeholder; none for no books.
pub fn ratings_for_books_sql(n: usize) -> (r: Option<String>)
    ensures
        r matches Some(q) ==> batch_text(RATINGS_HEAD@, n as nat, RATINGS_TAIL@) == Some(q@),
        r is None <==> n == 0,
{
    batch_query(RATINGS_HEAD, n, RATINGS_TAIL)
}

/// The query that reads the reading statuses of `n` books with their status
/// names and authors, newest first; none for no books.
pub fn statuses_for_books_sql(n: usize) -> (r: Option<String>)
    ensures
        r matches Some(q) ==> batch_text(STATUSES_HEAD@, n as nat, STATUSES_TAIL@) == Some(q@),
        r is None <==> n == 0,
{
    batch_query(STATUSES_HEAD, n, STATUSES_TAIL)
}

/// The query that reads one user's `(book_id, status_id)` rows for `n` books:
/// the user id is bound first, then one book id per placeholder; none for no
/// books.
pub fn current_user_statuses_sql(n: usize) -> (r: Option<String>)
    ensures
        r matches Some(q) ==> batch_text(CURRENT_STATUSES_HEAD@, n as nat, CURRENT_STATUSES_TAIL@) == Some(q@),
        r is None <==> n == 0,
{
    batch_query(CURRENT_STATUSES_HEAD, n, CURRENT_STATUSES_TAIL)
}

/// The `LIKE` pattern that finds `term` anywhere in a text.
pub fn search_pattern(term: &str) -> (r: String)
    ensures
        r@ == seq!['%'] + term@ + seq!['%'],
{
    let mut p = String::from_str("%");
    p.append(term);
    p.append("%");
    proof {
        reveal_strlit("%");
    }
    p
}

/// The answer to a read of one row: the row, or "not found".
pub fn found_or_not_found<T>(row: Option<T>) -> (r: Result<T, ApiError>)
    ensures
        row matches Some(v) ==> r == Ok::<T, ApiError>(v),
        row is None ==> r == Err::<T, ApiError>(ApiError::NotFound),
{
    match row {
        Some(v) => Ok(v),
        None => Err(ApiError::NotFound),
    }
}

/// The answer to listing a book's journal entries: "not found" where the book
/// is not there, its entries otherwise.
pub fn book_journals_result(book_found: bool, journals: Vec<JournalEntry>) -> (r: Result<
    Vec<JournalEntry>,
    ApiError,
>)
    ensures
        !book_found ==> r == Err::<Vec<JournalEntry>, ApiError>(ApiError::NotFound),
        book_found ==> r == Ok::<Vec<JournalEntry>, ApiError>(journals),
{
    if book_found {
        Ok(journals)
    } else {
        Err(ApiError::NotFound)
    }
}

/// Whether a delete of one row by id stands: zero rows removed is "not
/// found", not a silent success.
pub fn require_row_removed(rows: u64) -> (r: Result<(), ApiError>)
    ensures
        rows == 0 ==> r == Err::<(), ApiError>(ApiError::NotFound),
        rows > 0 ==> r == Ok::<(), ApiError>(()),
{
    if rows == 0 {
        Err(ApiError::NotFound)
    } else {
        Ok(())
    }
}

/// A list shown with its books, in list order, and its owner.
pub fn list_with_books(list: List, books: Vec<BookInList>, user: ListUser) -> (r: ListWithBooks)
    ensures
        r.id == list.id,
        r.user_id == list.user_id,
        r.type_id == list.type_id,
        r.name == list.name,
        r.books == books,
        r.user == user,
{
    ListWithBooks {
        id: list.id,
        user_id: list.user_id,
        type_id: list.type_id,
        name: list.name,
        books,
        user,
    }
}

/// How the database answered a failed query.
#[derive(Debug, Clone, Copy, PartialEq, Eq, Structural)]
pub enum DbError {
    /// The query needed a row and found none.
    RowNotFound,
    /// Anything else.
    Other,
}

/// The answer to a write that needs its row: a missing row is "not found",
/// any other failure is internal.
pub fn write_error(e: DbError) -> (r: ApiError)
    ensures
        e == DbError::RowNotFound ==> r == ApiError::NotFound,
        e == DbError::Other ==> r == ApiError::Internal,
{
    match e {
        DbError::RowNotFound => ApiError::NotFound,
        DbError::Other => ApiError::Internal,
    }
}

} // verus!
