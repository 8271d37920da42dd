//! What the statements do to the tables they write, and the laws that follow.
//!
//! The model holds the tables that the library's statements touch. Label
//! links and list entries are sequences of rows (a table may hold a row
//! twice); books, labels and journal entries are keyed by id.
use vstd::prelude::*;

use crate::details::{is_details_of, BookExtras};
use crate::errors::ApiError;
use crate::models::{Book, BookRating, BookStatus, CreateBookRequest, Genre, JournalEntry, Tag};
use crate::statements::{delete_book_plan, link_statements, replace_links_plan, Relation, Statement};
use crate::validate::{is_new_book_row, is_status_id, lemma_rating_range, rating_half_stars};

verus! {

/// The rows of the tables that the library writes.
pub ghost struct Tables {
    pub books: Map<i64, Book>,
    pub tags: Map<i64, Tag>,
    pub genres: Map<i64, Genre>,
    /// `(book_id, tag_id)` rows.
    pub book_tags: Seq<(i64, i64)>,
    /// `(book_id, genre_id)` rows.
    pub book_genres: Seq<(i64, i64)>,
    pub journals: Map<i64, JournalEntry>,
    /// `(list_id, book_id, position)` rows.
    pub list_books: Seq<(i64, i64, i64)>,
    /// Half-star ratings, one per `(user_id, book_id)`.
    pub ratings: Map<(i64, i64), i64>,
    /// Reading status ids, one per `(user_id, book_id)`.
    pub statuses: Map<(i64, i64), i64>,
    /// The id that the next stored book receives.
    pub next_book_id: i64,
}

/// Every stored book has a positive id below the next one.
pub open spec fn tables_wf(db: Tables) -> bool {
    &&& db.next_book_id >= 1
    &&& forall|k: i64| #[trigger] db.books.contains_key(k) ==> 0 < k < db.next_book_id
}

pub open spec fn links(db: Tables, rel: Relation) -> Seq<(i64, i64)> {
    match rel {
        Relation::Tags => db.book_tags,
        Relation::Genres => db.book_genres,
    }
}

pub open spec fn with_links(db: Tables, rel: Relation, rows: Seq<(i64, i64)>) -> Tables {
    match rel {
        Relation::Tags => Tables { book_tags: rows, ..db },
        Relation::Genres => Tables { book_genres: rows, ..db },
    }
}

pub open spec fn label_exists(db: Tables, rel: Relation, id: i64) -> bool {
    match rel {
        Relation::Tags => db.tags.contains_key(id),
        Relation::Genres => db.genres.contains_key(id),
    }
}

/// The link rows that do not belong to book `b`.
pub open spec fn without_book(rows: Seq<(i64, i64)>, b: i64) -> Seq<(i64, i64)>
    decreases rows.len(),
{
    if rows.len() == 0 {
        rows
    } else if rows.last().0 == b {
        without_book(rows.drop_last(), b)
    } else {
        without_book(rows.drop_last(), b).push(rows.last())
    }
}

/// The labels linked to book `b`, in the order of the rows.
pub open spec fn linked_items(rows: Seq<(i64, i64)>, b: i64) -> Seq<i64>
    decreases rows.len(),
{
    if rows.len() == 0 {
        Seq::empty()
    } else if rows.last().0 == b {
        linked_items(rows.drop_last(), b).push(rows.last().1)
    } else {
        linked_items(rows.drop_last(), b)
    }
}

/// The list rows that do not belong to list `l`.
pub open spec fn without_list(rows: Seq<(i64, i64, i64)>, l: i64) -> Seq<(i64, i64, i64)>
    decreases rows.len(),
{
    if rows.len() == 0 {
        rows
    } else if rows.last().0 == l {
        without_list(rows.drop_last(), l)
    } else {
        without_list(rows.drop_last(), l).push(rows.last())
    }
}

/// The journal entries that do not belong to book `b`.
pub open spec fn journals_without_book(js: Map<i64, JournalEntry>, b: i64) -> Map<
    i64,
    JournalEntry,
> {
    Map::new(|k: i64| js.contains_key(k) && js[k].book_id != b, |k: i64| js[k])
}

/// The tables after one statement, or `None` where it fails (a link or list
/// entry that names a missing row).
pub open spec fn run_statement(db: Tables, s: Statement) -> Option<Tables> {
    match s {
        Statement::Unlink { relation, book_id } => Some(
            with_links(db, relation, without_book(links(db, relation), book_id)),
        ),
        Statement::Link { relation, book_id, item_id } => if db.books.contains_key(book_id)
            && label_exists(db, relation, item_id) {
            Some(with_links(db, relation, links(db, relation).push((book_id, item_id))))
        } else {
            None
        },
        Statement::DeleteJournalsOf { book_id } => Some(
            Tables { journals: journals_without_book(db.journals, book_id), ..db },
        ),
        Statement::DeleteBook { book_id } => Some(Tables { books: db.books.remove(book_id), ..db }),
        Statement::ClearListBooks { list_id } => Some(
            Tables { list_books: without_list(db.list_books, list_id), ..db },
        ),
        Statement::AddListBook { list_id, book_id, position } => if db.books.contains_key(
            book_id,
        ) {
            Some(Tables { list_books: db.list_books.push((list_id, book_id, position)), ..db })
        } else {
            None
        },
        Statement::UpsertRating { user_id, book_id, half_stars } => if db.books.contains_key(
            book_id,
        ) {
            Some(Tables { ratings: db.ratings.insert((user_id, book_id), half_stars), ..db })
        } else {
            None
        },
        Statement::DeleteRating { user_id, book_id } => Some(
            Tables { ratings: db.ratings.remove((user_id, book_id)), ..db },
        ),
        Statement::UpsertStatus { user_id, book_id, status_id } => if db.books.contains_key(
            book_id,
        ) {
            Some(Tables { statuses: db.statuses.insert((user_id, book_id), status_id), ..db })
        } else {
            None
        },
        Statement::DeleteStatus { user_id, book_id } => Some(
            Tables { statuses: db.statuses.remove((user_id, book_id)), ..db },
        ),
    }
}

/// The tables after a plan run as one transaction: `None` where a statement
/// fails, and then nothing changes.
pub open spec fn run_plan(db: Tables, plan: Seq<Statement>) -> Option<Tables>
    decreases plan.len(),
{
    if plan.len() == 0 {
        Some(db)
    } else {
        match run_statement(db, plan[0]) {
            Some(next) => run_plan(next, plan.drop_first()),
            None => None,
        }
    }
}

/// Removing book `b`: the tables afterwards and the answer. The transaction
/// commits only where the last statement removed a row, that is where the
/// book was there; otherwise it rolls back and the answer is "not found".
pub open spec fn delete_book_effect(db: Tables, b: i64) -> (Tables, Result<(), ApiError>) {
    match run_plan(db, delete_book_plan(b)) {
        Some(after) => if db.books.contains_key(b) {
            (after, Ok(()))
        } else {
            (db, Err(ApiError::NotFound))
        },
        None => (db, Err(ApiError::Internal)),
    }
}

/// Storing a new book row: it receives the next id.
pub open spec fn insert_book(db: Tables, row: Book) -> (Tables, i64) {
    let id = db.next_book_id;
    (Tables { books: db.books.insert(id, Book { id, ..row }), next_book_id: (id + 1) as i64, ..db }, id)
}

/// The answer to listing a book's journal entries: the ids of its entries, or
/// "not found" where the book is not there.
pub open spec fn book_journals_response(db: Tables, b: i64) -> Result<Set<i64>, ApiError> {
    if db.books.contains_key(b) {
        Ok(Set::new(|j: i64| db.journals.contains_key(j) && db.journals[j].book_id == b))
    } else {
        Err(ApiError::NotFound)
    }
}

pub open spec fn link_rows(b: i64, ids: Seq<i64>) -> Seq<(i64, i64)> {
    Seq::new(ids.len(), |i: int| (b, ids[i]))
}

proof fn lemma_split_concat(xs: Seq<(i64, i64)>, ys: Seq<(i64, i64)>, b: i64)
    ensures
        without_book(xs + ys, b) == without_book(xs, b) + without_book(ys, b),
        linked_items(xs + ys, b) == linked_items(xs, b) + linked_items(ys, b),
    decreases ys.len(),
{
    if ys.len() == 0 {
        assert(xs + ys =~= xs);
        assert(without_book(xs, b) + without_book(ys, b) =~= without_book(xs, b));
        assert(linked_items(xs, b) + linked_items(ys, b) =~= linked_items(xs, b));
    } else {
        assert((xs + ys).drop_last() =~= xs + ys.drop_last());
        assert((xs + ys).last() == ys.last());
        lemma_split_concat(xs, ys.drop_last(), b);
        assert(without_book(xs + ys, b) =~= without_book(xs, b) + without_book(ys, b));
        assert(linked_items(xs + ys, b) =~= linked_items(xs, b) + linked_items(ys, b));
    }
}

proof fn lemma_without_book_clean(xs: Seq<(i64, i64)>, b: i64)
    ensures
        without_book(without_book(xs, b), b) == without_book(xs, b),
        linked_items(without_book(xs, b), b) == Seq::<i64>::empty(),
    decreases xs.len(),
{
    if xs.len() > 0 {
        lemma_without_book_clean(xs.drop_last(), b);
        if xs.last().0 != b {
            let w = without_book(xs.drop_last(), b);
            assert(w.push(xs.last()).drop_last() =~= w);
        }
    }
}

proof fn lemma_link_rows(b: i64, ids: Seq<i64>)
    ensures
        without_book(link_rows(b, ids), b) == Seq::<(i64, i64)>::empty(),
        linked_items(link_rows(b, ids), b) == ids,
    decreases ids.len(),
{
    if ids.len() > 0 {
        lemma_link_rows(b, ids.drop_last());
        assert(link_rows(b, ids).drop_last() =~= link_rows(b, ids.drop_last()));
        assert(ids.drop_last().push(ids.last()) =~= ids);
    } else {
        assert(link_rows(b, ids) =~= Seq::<(i64, i64)>::empty());
        assert(ids =~= Seq::<i64>::empty());
    }
}

proof fn lemma_run_links(d: Tables, rel: Relation, b: i64, ids: Seq<i64>)
    requires
        d.books.contains_key(b),
        forall|i: int| 0 <= i < ids.len() ==> label_exists(d, rel, #[trigger] ids[i]),
    ensures
        run_plan(d, link_statements(rel, b, ids)) == Some(
            with_links(d, rel, links(d, rel) + link_rows(b, ids)),
        ),
    decreases ids.len(),
{
    let plan = link_statements(rel, b, ids);
    if ids.len() == 0 {
        assert(links(d, rel) + link_rows(b, ids) =~= links(d, rel));
        assert(with_links(d, rel, links(d, rel)) == d);
    } else {
        let next = with_links(d, rel, links(d, rel).push((b, ids[0])));
        assert(plan[0] == Statement::Link { relation: rel, book_id: b, item_id: ids[0] });
        assert(run_statement(d, plan[0]) == Some(next));
        assert(plan.drop_first() =~= link_statements(rel, b, ids.drop_first()));
        assert forall|i: int| 0 <= i < ids.drop_first().len() implies label_exists(
            next,
            rel,
            #[trigger] ids.drop_first()[i],
        ) by {
            assert(ids.drop_first()[i] == ids[i + 1]);
        }
        lemma_run_links(next, rel, b, ids.drop_first());
        assert(links(next, rel) + link_rows(b, ids.drop_first()) =~= links(d, rel) + link_rows(
            b,
            ids,
        ));
    }
}

/// Replacing a book's labels of one relation by a list of existing labels
/// leaves exactly that list linked to the book, and doing it a second time
/// with the same list changes nothing.
pub proof fn lemma_replace_links_idempotent(db: Tables, rel: Relation, b: i64, ids: Seq<i64>)
    requires
        db.books.contains_key(b),
        forall|i: int| 0 <= i < ids.len() ==> label_exists(db, rel, #[trigger] ids[i]),
    ensures
        run_plan(db, replace_links_plan(rel, b, ids)) is Some,
        linked_items(links(run_plan(db, replace_links_plan(rel, b, ids))->0, rel), b) == ids,
        without_book(links(run_plan(db, replace_links_plan(rel, b, ids))->0, rel), b)
            == without_book(links(db, rel), b),
        run_plan(run_plan(db, replace_links_plan(rel, b, ids))->0, replace_links_plan(rel, b, ids))
            == run_plan(db, replace_links_plan(rel, b, ids)),
{
    let plan = replace_links_plan(rel, b, ids);
    let w = without_book(links(db, rel), b);
    let first = with_links(db, rel, w);
    assert(plan[0] == Statement::Unlink { relation: rel, book_id: b });
    assert(plan.drop_first() =~= link_statements(rel, b, ids));
    assert(run_statement(db, plan[0]) == Some(first));
    lemma_run_links(first, rel, b, ids);
    let d1 = with_links(db, rel, w + link_rows(b, ids));
    assert(run_plan(db, plan) == Some(d1));
    lemma_split_concat(w, link_rows(b, ids), b);
    lemma_without_book_clean(links(db, rel), b);
    lemma_link_rows(b, ids);
    assert(linked_items(w + link_rows(b, ids), b) =~= ids);
    assert(without_book(w + link_rows(b, ids), b) =~= w);
    // the second run starts from d1
    let again = with_links(d1, rel, without_book(links(d1, rel), b));
    assert(run_statement(d1, plan[0]) == Some(again));
    assert(again == first);
}

/// Removing a book that is there succeeds: the book leaves the tables, with
/// its tag and genre links and its journal entries, while the tags and genres
/// themselves stay; afterwards its journal entries cannot be listed, as the
/// book is not found.
pub proof fn lemma_delete_book(db: Tables, b: i64)
    requires
        db.books.contains_key(b),
    ensures
        delete_book_effect(db, b).1 == Ok::<(), ApiError>(()),
        delete_book_effect(db, b).0.books == db.books.remove(b),
        !delete_book_effect(db, b).0.books.contains_key(b),
        delete_book_effect(db, b).0.tags == db.tags,
        delete_book_effect(db, b).0.genres == db.genres,
        linked_items(delete_book_effect(db, b).0.book_tags, b) == Seq::<i64>::empty(),
        linked_items(delete_book_effect(db, b).0.book_genres, b) == Seq::<i64>::empty(),
        forall|j: i64| #[trigger]
            delete_book_effect(db, b).0.journals.contains_key(j)
                ==> delete_book_effect(db, b).0.journals[j].book_id != b,
        book_journals_response(delete_book_effect(db, b).0, b) == Err::<Set<i64>, ApiError>(
            ApiError::NotFound,
        ),
{
    let plan = delete_book_plan(b);
    let d1 = with_links(db, Relation::Tags, without_book(db.book_tags, b));
    let d2 = with_links(d1, Relation::Genres, without_book(d1.book_genres, b));
    let d3 = Tables { journals: journals_without_book(d2.journals, b), ..d2 };
    let d4 = Tables { books: d3.books.remove(b), ..d3 };
    assert(run_statement(db, plan[0]) == Some(d1));
    assert(run_statement(d1, plan.drop_first()[0]) == Some(d2));
    assert(run_statement(d2, plan.drop_first().drop_first()[0]) == Some(d3));
    assert(run_statement(d3, plan.drop_first().drop_first().drop_first()[0]) == Some(d4));
    let p1 = plan.drop_first();
    let p2 = p1.drop_first();
    let p3 = p2.drop_first();
    assert(p3.drop_first().len() == 0);
    assert(run_plan(d4, p3.drop_first()) == Some(d4));
    assert(run_plan(d3, p3) == Some(d4));
    assert(run_plan(d2, p2) == Some(d4));
    assert(run_plan(d1, p1) == Some(d4));
    assert(run_plan(db, plan) == Some(d4));
    lemma_without_book_clean(db.book_tags, b);
    lemma_without_book_clean(db.book_genres, b);
}

/// Removing a book that is not there is "not found" and changes nothing.
pub proof fn lemma_delete_missing_book(db: Tables, b: i64)
    requires
        !db.books.contains_key(b),
    ensures
        delete_book_effect(db, b) == (db, Err::<(), ApiError>(ApiError::NotFound)),
{
    let plan = delete_book_plan(b);
    let d1 = with_links(db, Relation::Tags, without_book(db.book_tags, b));
    let d2 = with_links(d1, Relation::Genres, without_book(d1.book_genres, b));
    let d3 = Tables { journals: journals_without_book(d2.journals, b), ..d2 };
    let d4 = Tables { books: d3.books.remove(b), ..d3 };
    assert(run_statement(db, plan[0]) == Some(d1));
    assert(run_statement(d1, plan.drop_first()[0]) == Some(d2));
    assert(run_statement(d2, plan.drop_first().drop_first()[0]) == Some(d3));
    assert(run_statement(d3, plan.drop_first().drop_first().drop_first()[0]) == Some(d4));
    let p1 = plan.drop_first();
    let p2 = p1.drop_first();
    let p3 = p2.drop_first();
    assert(p3.drop_first().len() == 0);
    assert(run_plan(d4, p3.drop_first()) == Some(d4));
    assert(run_plan(d3, p3) == Some(d4));
    assert(run_plan(d2, p2) == Some(d4));
    assert(run_plan(d1, p1) == Some(d4));
    assert(run_plan(db, plan) == Some(d4));
}

/// A book stored from a create request and read back by its id is there, with
/// a positive id, and its detailed view shows the submitted title and author
/// and the requesting user as owner.
pub proof fn lemma_created_book_reads_back(
    db: Tables,
    user_id: i64,
    request: CreateBookRequest,
    row: Book,
    extras: BookExtras,
    ratings: Seq<BookRating>,
    statuses: Seq<BookStatus>,
    current: Option<i64>,
)
    requires
        tables_wf(db),
        db.next_book_id < i64::MAX,
        is_new_book_row(row, user_id, request),
    ensures
        ({
            let (after, id) = insert_book(db, row);
            &&& id > 0
            &&& tables_wf(after)
            &&& after.books.contains_key(id)
            &&& !db.books.contains_key(id)
            &&& forall|d| #[trigger]
                is_details_of(d, after.books[id], extras, ratings, statuses, current) ==> {
                    &&& d.id == id
                    &&& d.title == request.title
                    &&& d.author == request.author
                    &&& d.user_id == user_id
                }
        }),
{
}

/// A user's request to rate a book with a numeral: the tables afterwards and
/// the answer. The statement is the one `upsert_rating_query` gives; a
/// rejected numeral runs nothing.
pub open spec fn rating_request_effect(db: Tables, user_id: i64, book_id: i64, numeral: Seq<char>) -> (
    Tables,
    Result<(), ApiError>,
) {
    match rating_half_stars(numeral) {
        None => (db, Err(ApiError::BadRequest)),
        Some(h) => match run_statement(
            db,
            Statement::UpsertRating { user_id, book_id, half_stars: h as i64 },
        ) {
            Some(after) => (after, Ok(())),
            None => (db, Err(ApiError::Internal)),
        },
    }
}

/// A user's request to set a reading status: the tables afterwards and the
/// answer. The statement is the one `upsert_status_query` gives; an unknown
/// status id runs nothing.
pub open spec fn status_request_effect(db: Tables, user_id: i64, book_id: i64, status_id: i64) -> (
    Tables,
    Result<(), ApiError>,
) {
    if !is_status_id(status_id) {
        (db, Err(ApiError::BadRequest))
    } else {
        match run_statement(db, Statement::UpsertStatus { user_id, book_id, status_id }) {
            Some(after) => (after, Ok(())),
            None => (db, Err(ApiError::Internal)),
        }
    }
}

/// Rating an existing book: a numeral that names a multiple of one half from
/// 0 to 5 is stored, in half stars, as that user's one rating of the book,
/// replacing an earlier one and touching no other; any other numeral is a bad
/// request and changes nothing.
pub proof fn lemma_rating_request(db: Tables, user_id: i64, book_id: i64, numeral: Seq<char>)
    requires
        db.books.contains_key(book_id),
    ensures
        rating_half_stars(numeral) is None ==> rating_request_effect(db, user_id, book_id, numeral)
            == (db, Err::<(), ApiError>(ApiError::BadRequest)),
        rating_half_stars(numeral) matches Some(h) ==> {
            &&& 0 <= h <= 10
            &&& rating_request_effect(db, user_id, book_id, numeral) == (
                Tables { ratings: db.ratings.insert((user_id, book_id), h as i64), ..db },
                Ok::<(), ApiError>(()),
            )
        },
{
    lemma_rating_range(numeral);
}

/// Setting a reading status on an existing book: a known status id (0, 1, 2,
/// 3 or 99) is stored as that user's one status for the book, replacing an
/// earlier one and touching no other; any other id is a bad request and
/// changes nothing.
pub proof fn lemma_status_request(db: Tables, user_id: i64, book_id: i64, status_id: i64)
    requires
        db.books.contains_key(book_id),
    ensures
        !is_status_id(status_id) ==> status_request_effect(db, user_id, book_id, status_id) == (
            db,
            Err::<(), ApiError>(ApiError::BadRequest),
        ),
        is_status_id(status_id) ==> status_request_effect(db, user_id, book_id, status_id) == (
            Tables { statuses: db.statuses.insert((user_id, book_id), status_id), ..db },
            Ok::<(), ApiError>(()),
        ),
{
}

} // verus!
