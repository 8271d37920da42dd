//! The records the library reads and produces.
//!
//! Timestamps are strings that the database writes. A star rating is held as a
//! count of half stars, from 0 (no stars) to 10 (five stars).
use vstd::prelude::*;

verus! {

/// A book, owned by one user.
#[derive(Debug, Clone, PartialEq, Eq)]
pub struct Book {
    pub id: i64,
    pub user_id: i64,
    pub cover_image: Option<String>,
    pub title: String,
    pub author: String,
    pub series: Option<String>,
    pub created_at: Option<String>,
    pub updated_at: Option<String>,
}

/// The body of a request that creates a book.
#[derive(Debug, Clone, PartialEq, Eq)]
pub struct CreateBookRequest {
    pub cover_image: Option<String>,
    pub title: String,
    pub author: String,
    pub tags: Option<Vec<i64>>,
    pub genres: Option<Vec<i64>>,
    pub series: Option<String>,
}

/// A change to a field that may hold no value.
#[derive(Debug, Clone, PartialEq, Eq)]
pub enum FieldUpdate<T> {
    /// Leave the field as it is.
    Unset,
    /// Clear the field.
    SetToNull,
    /// Store the given value.
    SetTo(T),
}

/// The body of a request that changes a book. A field that is `None` (or
/// `Unset`) keeps its current value; `tags` and `genres`, when present,
/// replace the book's whole set.
#[derive(Debug, Clone, PartialEq, Eq)]
pub struct UpdateBookRequest {
    pub cover_image: FieldUpdate<String>,
    pub title: Option<String>,
    pub author: Option<String>,
    pub tags: Option<Vec<i64>>,
    pub genres: Option<Vec<i64>>,
    pub series: FieldUpdate<String>,
}

/// A tag as it is shown with a book.
#[derive(Debug, Clone, PartialEq, Eq)]
pub struct BookTag {
    pub id: i64,
    pub name: String,
    pub color: String,
}

/// A genre as it is shown with a book.
#[derive(Debug, Clone, PartialEq, Eq)]
pub struct BookGenre {
    pub id: i64,
    pub name: String,
    pub color: String,
}

/// The author of a journal entry.
#[derive(Debug, Clone, PartialEq, Eq)]
pub struct JournalUser {
    pub id: i64,
    pub name: String,
    pub color: String,
}

/// A journal entry as it is shown with a book.
#[derive(Debug, Clone, PartialEq, Eq)]
pub struct BookJournal {
    pub id: i64,
    pub title: String,
    pub content: String,
    pub user: JournalUser,
    pub created_at: String,
    pub updated_at: String,
}

/// The author of a rating.
#[derive(Debug, Clone, PartialEq, Eq)]
pub struct RatingUser {
    pub id: i64,
    pub name: String,
    pub color: String,
}

/// A rating as it is shown with a book; `rating` counts half stars.
#[derive(Debug, Clone, PartialEq, Eq)]
pub struct BookRating {
    pub id: i64,
    pub user_id: i64,
    pub book_id: i64,
    pub rating: u8,
    pub created_at: Option<String>,
    pub updated_at: Option<String>,
    pub user: RatingUser,
}

/// The author of a reading status.
#[derive(Debug, Clone, PartialEq, Eq)]
pub struct StatusUser {
    pub id: i64,
    pub name: String,
    pub color: String,
}

/// A reading status as it is shown with a book.
#[derive(Debug, Clone, PartialEq, Eq)]
pub struct BookStatus {
    pub id: i64,
    pub user_id: i64,
    pub book_id: i64,
    pub status_id: i64,
    pub status_name: String,
    pub created_at: Option<String>,
    pub updated_at: Option<String>,
    pub user: StatusUser,
}

/// The body of a request that sets the current user's reading status.
#[derive(Debug, Clone, PartialEq, Eq)]
pub struct UpsertStatusRequest {
    pub status_id: i64,
}

/// The body of a request that sets the current user's rating. The rating is
/// the decimal numeral that the client sent, such as `4.5`.
#[derive(Debug, Clone, PartialEq, Eq)]
pub struct UpsertRatingRequest {
    pub rating: String,
}

/// A book together with everything that is recorded about it.
#[derive(Debug, Clone, PartialEq, Eq)]
pub struct BookWithDetails {
    pub id: i64,
    pub user_id: i64,
    pub cover_image: Option<String>,
    pub title: String,
    pub author: String,
    pub created_at: Option<String>,
    pub updated_at: Option<String>,
    pub tags: Vec<BookTag>,
    pub genres: Vec<BookGenre>,
    pub series: Option<String>,
    pub journals: Vec<BookJournal>,
    pub ratings: Vec<BookRating>,
    pub statuses: Vec<BookStatus>,
    pub current_user_status: Option<i64>,
}

/// A genre, shared by the books that name it.
#[derive(Debug, Clone, PartialEq, Eq)]
pub struct Genre {
    pub id: i64,
    pub user_id: i64,
    pub name: String,
    pub color: String,
    pub created_at: Option<String>,
    pub updated_at: Option<String>,
}

/// The body of a request that creates a genre.
#[derive(Debug, Clone, PartialEq, Eq)]
pub struct CreateGenreRequest {
    pub name: String,
    pub color: String,
}

/// The body of a request that changes a genre.
#[derive(Debug, Clone, PartialEq, Eq)]
pub struct UpdateGenreRequest {
    pub name: Option<String>,
    pub color: Option<String>,
}

/// A tag, shared by the books that name it.
#[derive(Debug, Clone, PartialEq, Eq)]
pub struct Tag {
    pub id: i64,
    pub user_id: i64,
    pub name: String,
    pub color: String,
    pub created_at: Option<String>,
    pub updated_at: Option<String>,
}

/// A journal entry that a user wrote about a book.
#[derive(Debug, Clone, PartialEq, Eq)]
pub struct JournalEntry {
    pub id: i64,
    pub book_id: i64,
    pub user_id: i64,
    pub title: String,
    pub content: String,
    pub created_at: Option<String>,
    pub updated_at: Option<String>,
}

/// The body of a request that changes a journal entry.
#[derive(Debug, Clone, PartialEq, Eq)]
pub struct UpdateJournalRequest {
    pub title: Option<String>,
    pub content: Option<String>,
}

/// A named list of books.
#[derive(Debug, Clone, PartialEq, Eq)]
pub struct List {
    pub id: i64,
    pub user_id: i64,
    pub type_id: i64,
    pub name: String,
    pub created_at: Option<String>,
    pub updated_at: Option<String>,
}

/// A book as it is shown in a list.
#[derive(Debug, Clone, PartialEq, Eq)]
pub struct BookInList {
    pub id: i64,
    pub cover_image: Option<String>,
    pub status_name: Option<String>,
}

/// The owner of a list.
#[derive(Debug, Clone, PartialEq, Eq)]
pub struct ListUser {
    pub id: i64,
    pub name: String,
    pub color: String,
    pub avatar_image: Option<String>,
}

/// A list with its books, in list order.
#[derive(Debug, Clone, PartialEq, Eq)]
pub struct ListWithBooks {
    pub id: i64,
    pub user_id: i64,
    pub type_id: i64,
    pub name: String,
    pub books: Vec<BookInList>,
    pub user: ListUser,
}

/// The body of a request that creates a list.
#[derive(Debug, Clone, PartialEq, Eq)]
pub struct CreateListRequest {
    pub type_id: i64,
    pub name: String,
    pub books: Vec<i64>,
}

/// The body of a request that changes a list.
#[derive(Debug, Clone, PartialEq, Eq)]
pub struct UpdateListRequest {
    pub name: Option<String>,
    pub type_id: Option<i64>,
    pub books: Option<Vec<i64>>,
}

/// A user's rating of a book; `rating` counts half stars.
#[derive(Debug, Clone, PartialEq, Eq)]
pub struct Rating {
    pub id: i64,
    pub user_id: i64,
    pub book_id: i64,
    pub rating: Option<u8>,
    pub created_at: Option<String>,
    pub updated_at: Option<String>,
}

/// A user's reading status for a book.
#[derive(Debug, Clone, PartialEq, Eq)]
pub struct ReadingStatus {
    pub id: i64,
    pub user_id: i64,
    pub book_id: i64,
    pub status_id: i64,
    pub created_at: Option<String>,
    pub updated_at: Option<String>,
}

/// A user of the library.
#[derive(Debug, Clone, PartialEq, Eq)]
pub struct User {
    pub id: i64,
    pub name: String,
    pub color: String,
    pub avatar_image: Option<String>,
    pub created_at: Option<String>,
    pub updated_at: Option<String>,
    pub last_login: Option<String>,
}

/// The body of a request that selects the active user.
#[derive(Debug, Clone, PartialEq, Eq)]
pub struct SelectUser {
    pub id: i64,
}

/// The body of a request that changes a user.
#[derive(Debug, Clone, PartialEq, Eq)]
pub struct UpdateUserRequest {
    pub name: Option<String>,
    pub color: Option<String>,
    pub avatar_image: Option<String>,
}

/// The query string of a request that lists books.
#[derive(Debug, Clone, PartialEq, Eq)]
pub struct BookQueryParams {
    pub search: Option<String>,
}

/// The query string of a request that lists genres.
#[derive(Debug, Clone, PartialEq, Eq)]
pub struct GenreQueryParams {
    pub name: Option<String>,
}

/// The query string of a request that lists tags.
#[derive(Debug, Clone, PartialEq, Eq)]
pub struct TagQueryParams {
    pub name: Option<String>,
}

} // verus!
