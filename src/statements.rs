//! The write statements of the library and the plans that group them.
//!
//! A plan is a sequence of statements meant to run in one transaction. Each
//! statement knows its SQL text and the integers bound to its placeholders;
//! table and column names come only from the fixed set below, never from a
//! caller.
use vstd::prelude::*;

verus! {

/// The two many-to-many relations between a book and shared labels.
#[derive(Debug, Clone, Copy, PartialEq, Eq, Structural)]
pub enum Relation {
    Tags,
    Genres,
}

pub open spec fn relation_table(rel: Relation) -> Seq<char> {
    match rel {
        Relation::Tags => "book_tags"@,
        Relation::Genres => "book_genres"@,
    }
}

pub open spec fn relation_key(rel: Relation) -> Seq<char> {
    match rel {
        Relation::Tags => "tag_id"@,
        Relation::Genres => "genre_id"@,
    }
}

impl Relation {
    /// The join table of the relation.
    pub fn table(&self) -> (r: &'static str)
        ensures
            r@ == relation_table(*self),
    {
        match self {
            Relation::Tags => "book_tags",
            Relation::Genres => "book_genres",
        }
    }

    /// The column of the join table that holds the label's id.
    pub fn foreign_key(&self) -> (r: &'static str)
        ensures
            r@ == relation_key(*self),
    {
        match self {
            Relation::Tags => "tag_id",
            Relation::Genres => "genre_id",
        }
    }
}

/// One write statement with its arguments.
#[derive(Debug, Clone, Copy, PartialEq, Eq, Structural)]
pub enum Statement {
    /// Remove every link of the relation from the book.
    Unlink { relation: Relation, book_id: i64 },
    /// Link the book to one label of the relation.
    Link { relation: Relation, book_id: i64, item_id: i64 },
    /// Remove the book's journal entries.
    DeleteJournalsOf { book_id: i64 },
    /// Remove the book itself.
    DeleteBook { book_id: i64 },
    /// Remove every book from the list.
    ClearListBooks { list_id: i64 },
    /// Put a book into the list at a position.
    AddListBook { list_id: i64, book_id: i64, position: i64 },
    /// Record a user's rating of a book, in half stars, replacing an earlier one.
    UpsertRating { user_id: i64, book_id: i64, half_stars: i64 },
    /// Remove a user's rating of a book.
    DeleteRating { user_id: i64, book_id: i64 },
    /// Record a user's reading status for a book, replacing an earlier one.
    UpsertStatus { user_id: i64, book_id: i64, status_id: i64 },
    /// Remove a user's reading status for a book.
    DeleteStatus { user_id: i64, book_id: i64 },
}

pub open spec fn statement_sql(s: Statement) -> Seq<char> {
    match s {
        Statement::Unlink { relation, .. } => "DELETE FROM "@ + relation_table(relation)
            + " WHERE book_id = ?"@,
        Statement::Link { relation, .. } => "INSERT INTO "@ + relation_table(relation)
            + " (book_id, "@ + relation_key(relation) + ") VALUES (?, ?)"@,
        Statement::DeleteJournalsOf { .. } => "DELETE FROM journal_entries WHERE book_id = ?"@,
        Statement::DeleteBook { .. } => "DELETE FROM books WHERE id = ?"@,
        Statement::ClearListBooks { .. } => "DELETE FROM list_books WHERE list_id = ?"@,
        Statement::AddListBook { .. } =>
            "INSERT INTO list_books (list_id, book_id, position) VALUES (?, ?, ?)"@,
        Statement::UpsertRating { .. } => UPSERT_RATING_SQL@,
        Statement::DeleteRating { .. } => "DELETE FROM ratings WHERE user_id = ? AND book_id = ?"@,
        Statement::UpsertStatus { .. } => UPSERT_STATUS_SQL@,
        Statement::DeleteStatus { .. } =>
            "DELETE FROM reading_status WHERE user_id = ? AND book_id = ?"@,
    }
}

/// Stores a rating given in half stars as a number of stars.
pub const UPSERT_RATING_SQL: &'static str = "INSERT INTO ratings (user_id, book_id, rating) VALUES (?, ?, ? / 2.0) ON CONFLICT(user_id, book_id) DO UPDATE SET rating = excluded.rating, updated_at = datetime('now')";

pub const UPSERT_STATUS_SQL: &'static str = "INSERT INTO reading_status (user_id, book_id, status_id) VALUES (?, ?, ?) ON CONFLICT(user_id, book_id) DO UPDATE SET status_id = excluded.status_id, updated_at = datetime('now')";

pub open spec fn statement_params(s: Statement) -> Seq<i64> {
    match s {
        Statement::Unlink { book_id, .. } => seq![book_id],
        Statement::Link { book_id, item_id, .. } => seq![book_id, item_id],
        Statement::DeleteJournalsOf { book_id } => seq![book_id],
        Statement::DeleteBook { book_id } => seq![book_id],
        Statement::ClearListBooks { list_id } => seq![list_id],
        Statement::AddListBook { list_id, book_id, position } => seq![list_id, book_id, position],
        Statement::UpsertRating { user_id, book_id, half_stars } => seq![
            user_id,
            book_id,
            half_stars,
        ],
        Statement::DeleteRating { user_id, book_id } => seq![user_id, book_id],
        Statement::UpsertStatus { user_id, book_id, status_id } => seq![
            user_id,
            book_id,
            status_id,
        ],
        Statement::DeleteStatus { user_id, book_id } => seq![user_id, book_id],
    }
}

impl Statement {
    /// The SQL text, with one `?` per argument.
    pub fn sql(&self) -> (r: String)
        ensures
            r@ == statement_sql(*self),
    {
        match self {
            Statement::Unlink { relation, .. } => {
                let mut q = String::from_str("DELETE FROM ");
                q.append(relation.table());
                q.append(" WHERE book_id = ?");
                q
            },
            Statement::Link { relation, .. } => {
                let mut q = String::from_str("INSERT INTO ");
                q.append(relation.table());
                q.append(" (book_id, ");
                q.append(relation.foreign_key());
                q.append(") VALUES (?, ?)");
                q
            },
            Statement::DeleteJournalsOf { .. } => String::from_str(
                "DELETE FROM journal_entries WHERE book_id = ?",
            ),
            Statement::DeleteBook { .. } => String::from_str("DELETE FROM books WHERE id = ?"),
            Statement::ClearListBooks { .. } => String::from_str(
                "DELETE FROM list_books WHERE list_id = ?",
            ),
            Statement::AddListBook { .. } => String::from_str(
                "INSERT INTO list_books (list_id, book_id, position) VALUES (?, ?, ?)",
            ),
            Statement::UpsertRating { .. } => String::from_str(UPSERT_RATING_SQL),
            Statement::DeleteRating { .. } => String::from_str(
                "DELETE FROM ratings WHERE user_id = ? AND book_id = ?",
            ),
            Statement::UpsertStatus { .. } => String::from_str(UPSERT_STATUS_SQL),
            Statement::DeleteStatus { .. } => String::from_str(
                "DELETE FROM reading_status WHERE user_id = ? AND book_id = ?",
            ),
        }
    }

    /// The arguments, in the order of the placeholders.
    pub fn params(&self) -> (r: Vec<i64>)
        ensures
            r@ == statement_params(*self),
    {
        match *self {
            Statement::Unlink { book_id, .. } => vec![book_id],
            Statement::Link { book_id, item_id, .. } => vec![book_id, item_id],
            Statement::DeleteJournalsOf { book_id } => vec![book_id],
            Statement::DeleteBook { book_id } => vec![book_id],
            Statement::ClearListBooks { list_id } => vec![list_id],
            Statement::AddListBook { list_id, book_id, position } => vec![
                list_id,
                book_id,
                position,
            ],
            Statement::UpsertRating { user_id, book_id, half_stars } => vec![
                user_id,
                book_id,
                half_stars,
            ],
            Statement::DeleteRating { user_id, book_id } => vec![user_id, book_id],
            Statement::UpsertStatus { user_id, book_id, status_id } => vec![
                user_id,
                book_id,
                status_id,
            ],
            Statement::DeleteStatus { user_id, book_id } => vec![user_id, book_id],
        }
    }
}

/// One link statement per id, in order.
pub open spec fn link_statements(rel: Relation, book_id: i64, ids: Seq<i64>) -> Seq<Statement> {
    Seq::new(ids.len(), |i: int| Statement::Link { relation: rel, book_id, item_id: ids[i] })
}

/// The statements that make the book's links of `rel` exactly `ids`, in
/// order: first every existing link goes, then one link per id (an id given
/// twice is linked twice).
pub open spec fn replace_links_plan(rel: Relation, book_id: i64, ids: Seq<i64>) -> Seq<Statement> {
    seq![Statement::Unlink { relation: rel, book_id }] + link_statements(rel, book_id, ids)
}

/// The statements that replace the book's links of `relation` by `item_ids`.
pub fn manage_book_relationships(relation: Relation, book_id: i64, item_ids: &[i64]) -> (r: Vec<
    Statement,
>)
    ensures
        r@ == replace_links_plan(relation, book_id, item_ids@),
{
    let mut plan: Vec<Statement> = vec![Statement::Unlink { relation, book_id }];
    let mut i: usize = 0;
    while i < item_ids.len()
        invariant
            i <= item_ids@.len(),
            plan@ == replace_links_plan(relation, book_id, item_ids@.take(i as int)),
        decreases item_ids@.len() - i,
    {
        plan.push(Statement::Link { relation, book_id, item_id: item_ids[i] });
        i = i + 1;
        proof {
            assert(item_ids@.take(i as int) == item_ids@.take(i - 1).push(item_ids@[i - 1]));
            assert(plan@ =~= replace_links_plan(relation, book_id, item_ids@.take(i as int)));
        }
    }
    proof {
        assert(item_ids@.take(item_ids@.len() as int) == item_ids@);
    }
    plan
}

/// The statements that give a new book its tags.
pub fn create_book_tags(book_id: i64, tag_ids: &[i64]) -> (r: Vec<Statement>)
    ensures
        r@ == replace_links_plan(Relation::Tags, book_id, tag_ids@),
{
    manage_book_relationships(Relation::Tags, book_id, tag_ids)
}

/// The statements that give a new book its genres.
pub fn create_book_genres(book_id: i64, genre_ids: &[i64]) -> (r: Vec<Statement>)
    ensures
        r@ == replace_links_plan(Relation::Genres, book_id, genre_ids@),
{
    manage_book_relationships(Relation::Genres, book_id, genre_ids)
}

/// The statements that replace a book's tags.
pub fn update_book_tags(book_id: i64, tag_ids: &[i64]) -> (r: Vec<Statement>)
    ensures
        r@ == replace_links_plan(Relation::Tags, book_id, tag_ids@),
{
    manage_book_relationships(Relation::Tags, book_id, tag_ids)
}

/// The statements that replace a book's genres.
pub fn update_book_genres(book_id: i64, genre_ids: &[i64]) -> (r: Vec<Statement>)
    ensures
        r@ == replace_links_plan(Relation::Genres, book_id, genre_ids@),
{
    manage_book_relationships(Relation::Genres, book_id, genre_ids)
}

/// The statements that remove a book: its tag links, its genre links, its
/// journal entries, and last the book row.
pub open spec fn delete_book_plan(book_id: i64) -> Seq<Statement> {
    seq![
        Statement::Unlink { relation: Relation::Tags, book_id },
        Statement::Unlink { relation: Relation::Genres, book_id },
        Statement::DeleteJournalsOf { book_id },
        Statement::DeleteBook { book_id },
    ]
}

/// The statements that remove a book with what hangs on it. They run in one
/// transaction, which commits only where the last one removed a row (see
/// `delete_book_outcome`).
pub fn delete_book_query(book_id: i64) -> (r: Vec<Statement>)
    ensures
        r@ == delete_book_plan(book_id),
{
    let r = vec![
        Statement::Unlink { relation: Relation::Tags, book_id },
        Statement::Unlink { relation: Relation::Genres, book_id },
        Statement::DeleteJournalsOf { book_id },
        Statement::DeleteBook { book_id },
    ];
    proof {
        assert(r@ =~= delete_book_plan(book_id));
    }
    r
}

/// Whether a removal whose last statement affected `rows` rows stands: zero
/// rows means the book was not there, and the transaction is rolled back.
pub fn delete_book_outcome(rows: u64) -> (r: Result<(), crate::errors::ApiError>)
    ensures
        rows == 0 ==> r == Err::<(), crate::errors::ApiError>(crate::errors::ApiError::NotFound),
        rows > 0 ==> r == Ok::<(), crate::errors::ApiError>(()),
{
    crate::queries::require_row_removed(rows)
}

/// The statements that put `book_ids` into the list, position `i` for the
/// `i`-th id.
pub open spec fn add_list_books_plan(list_id: i64, book_ids: Seq<i64>) -> Seq<Statement> {
    Seq::new(
        book_ids.len(),
        |i: int| Statement::AddListBook { list_id, book_id: book_ids[i], position: i as i64 },
    )
}

/// The statements that fill a new list, or, with `replace`, that make an
/// existing list hold exactly `book_ids` in that order.
pub fn list_books_plan(list_id: i64, book_ids: &[i64], replace: bool) -> (r: Vec<Statement>)
    requires
        book_ids@.len() <= i64::MAX,
    ensures
        r@ == if replace {
            seq![Statement::ClearListBooks { list_id }] + add_list_books_plan(list_id, book_ids@)
        } else {
            add_list_books_plan(list_id, book_ids@)
        },
{
    let mut plan: Vec<Statement> = Vec::new();
    if replace {
        plan.push(Statement::ClearListBooks { list_id });
    }
    let ghost start = plan@;
    let mut i: usize = 0;
    while i < book_ids.len()
        invariant
            i <= book_ids@.len(),
            book_ids@.len() <= i64::MAX,
            plan@ == start + add_list_books_plan(list_id, book_ids@.take(i as int)),
        decreases book_ids@.len() - i,
    {
        plan.push(Statement::AddListBook { list_id, book_id: book_ids[i], position: i as i64 });
        i = i + 1;
        proof {
            assert(plan@ =~= start + add_list_books_plan(list_id, book_ids@.take(i as int)));
        }
    }
    proof {
        assert(book_ids@.take(book_ids@.len() as int) == book_ids@);
        assert(start + add_list_books_plan(list_id, book_ids@) =~= if replace {
            seq![Statement::ClearListBooks { list_id }] + add_list_books_plan(list_id, book_ids@)
        } else {
            add_list_books_plan(list_id, book_ids@)
        });
    }
    plan
}

/// The statement that records `user_id`'s rating of `book_id`, where the
/// rating is a valid half-star numeral; a bad request otherwise.
pub fn upsert_rating_query(
    user_id: i64,
    book_id: i64,
    request: &crate::models::UpsertRatingRequest,
) -> (r: Result<Statement, crate::errors::ApiError>)
    ensures
        crate::validate::rating_half_stars(request.rating@) matches Some(h) ==> r == Ok::<
            Statement,
            crate::errors::ApiError,
        >(Statement::UpsertRating { user_id, book_id, half_stars: h as i64 }),
        crate::validate::rating_half_stars(request.rating@) is None ==> r == Err::<
            Statement,
            crate::errors::ApiError,
        >(crate::errors::ApiError::BadRequest),
{
    match crate::validate::check_rating_request(request) {
        Ok(h) => Ok(Statement::UpsertRating { user_id, book_id, half_stars: h as i64 }),
        Err(e) => Err(e),
    }
}

/// The statement that records `user_id`'s reading status for `book_id`, where
/// the status id is a known one; a bad request otherwise.
pub fn upsert_status_query(
    user_id: i64,
    book_id: i64,
    request: &crate::models::UpsertStatusRequest,
) -> (r: Result<Statement, crate::errors::ApiError>)
    ensures
        crate::validate::is_status_id(request.status_id) ==> r == Ok::<
            Statement,
            crate::errors::ApiError,
        >(Statement::UpsertStatus { user_id, book_id, status_id: request.status_id }),
        !crate::validate::is_status_id(request.status_id) ==> r == Err::<
            Statement,
            crate::errors::ApiError,
        >(crate::errors::ApiError::BadRequest),
{
    match crate::validate::check_status_request(request) {
        Ok(s) => Ok(Statement::UpsertStatus { user_id, book_id, status_id: s }),
        Err(e) => Err(e),
    }
}

/// The statement that removes `user_id`'s rating of `book_id`.
pub fn delete_rating_query(user_id: i64, book_id: i64) -> (r: Statement)
    ensures
        r == (Statement::DeleteRating { user_id, book_id }),
{
    Statement::DeleteRating { user_id, book_id }
}

/// The statement that removes `user_id`'s reading status for `book_id`.
pub fn delete_status_query(user_id: i64, book_id: i64) -> (r: Statement)
    ensures
        r == (Statement::DeleteStatus { user_id, book_id }),
{
    Statement::DeleteStatus { user_id, book_id }
}

} // verus!
