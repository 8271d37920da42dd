//! Partial updates: what a change request keeps and what it replaces.
use vstd::prelude::*;

use crate::models::{Book, FieldUpdate, JournalEntry, UpdateBookRequest, UpdateUserRequest, User};

verus! {

pub open spec fn updated_field<T>(current: Option<T>, change: FieldUpdate<T>) -> Option<T> {
    match change {
        FieldUpdate::Unset => current,
        FieldUpdate::SetToNull => None,
        FieldUpdate::SetTo(v) => Some(v),
    }
}

pub open spec fn updated_value<T>(current: T, change: Option<T>) -> T {
    match change {
        Some(v) => v,
        None => current,
    }
}

/// The value of a field that may hold nothing, after a change.
pub fn apply_field_update<T>(current: Option<T>, change: FieldUpdate<T>) -> (r: Option<T>)
    ensures
        r == updated_field(current, change),
{
    match change {
        FieldUpdate::Unset => current,
        FieldUpdate::SetToNull => None,
        FieldUpdate::SetTo(v) => Some(v),
    }
}

/// The value of a required field, after an optional new value.
pub fn apply_value_update<T>(current: T, change: Option<T>) -> (r: T)
    ensures
        r == updated_value(current, change),
{
    match change {
        Some(v) => v,
        None => current,
    }
}

/// A book row to write back, with the label lists that replace the book's
/// tags and genres where they are given.
pub struct BookUpdate {
    pub book: Book,
    pub tags: Option<Vec<i64>>,
    pub genres: Option<Vec<i64>>,
}

/// Merges a change request into the current row of book `id`: given fields
/// replace, absent ones keep their value; the timestamps stay as stored and
/// the row is written on behalf of `user_id`.
pub fn merge_book_update(id: i64, user_id: i64, current: Book, request: UpdateBookRequest) -> (r:
    BookUpdate)
    ensures
        r.book.id == id,
        r.book.user_id == user_id,
        r.book.cover_image == updated_field(current.cover_image, request.cover_image),
        r.book.title == updated_value(current.title, request.title),
        r.book.author == updated_value(current.author, request.author),
        r.book.series == updated_field(current.series, request.series),
        r.book.created_at == current.created_at,
        r.book.updated_at == current.updated_at,
        r.tags == request.tags,
        r.genres == request.genres,
{
    BookUpdate {
        book: Book {
            id,
            user_id,
            cover_image: apply_field_update(current.cover_image, request.cover_image),
            title: apply_value_update(current.title, request.title),
            author: apply_value_update(current.author, request.author),
            series: apply_field_update(current.series, request.series),
            created_at: current.created_at,
            updated_at: current.updated_at,
        },
        tags: request.tags,
        genres: request.genres,
    }
}

/// The title and content to write to a journal entry: given ones replace,
/// absent ones keep the entry's current text.
pub fn merge_journal_update(
    current: JournalEntry,
    title: Option<String>,
    content: Option<String>,
) -> (r: (String, String))
    ensures
        r.0 == updated_value(current.title, title),
        r.1 == updated_value(current.content, content),
{
    (apply_value_update(current.title, title), apply_value_update(current.content, content))
}

/// A user after a change request: given fields replace, absent ones keep
/// their value.
pub fn merge_user_update(current: User, request: UpdateUserRequest) -> (r: User)
    ensures
        r.id == current.id,
        r.name == updated_value(current.name, request.name),
        r.color == updated_value(current.color, request.color),
        r.avatar_image == match request.avatar_image {
            Some(a) => Some(a),
            None => current.avatar_image,
        },
        r.created_at == current.created_at,
        r.updated_at == current.updated_at,
        r.last_login == current.last_login,
{
    let avatar = match request.avatar_image {
        Some(a) => FieldUpdate::SetTo(a),
        None => FieldUpdate::Unset,
    };
    User {
        id: current.id,
        name: apply_value_update(current.name, request.name),
        color: apply_value_update(current.color, request.color),
        avatar_image: apply_field_update(current.avatar_image, avatar),
        created_at: current.created_at,
        updated_at: current.updated_at,
        last_login: current.last_login,
    }
}

pub open spec fn list_update_text(name_given: bool, type_given: bool) -> Option<Seq<char>> {
    if name_given && type_given {
        Some("UPDATE lists SET name = ?, type_id = ?, updated_at = datetime('now') WHERE id = ?"@)
    } else if name_given {
        Some("UPDATE lists SET name = ?, updated_at = datetime('now') WHERE id = ?"@)
    } else if type_given {
        Some("UPDATE lists SET type_id = ?, updated_at = datetime('now') WHERE id = ?"@)
    } else {
        None
    }
}

/// The statement that changes a list's own fields: it sets the name and the
/// type that are given (in that order, then the list id), and none is run
/// where neither is.
pub fn list_update_sql(name_given: bool, type_given: bool) -> (r: Option<&'static str>)
    ensures
        r matches Some(q) ==> list_update_text(name_given, type_given) == Some(q@),
        r is None <==> list_update_text(name_given, type_given) is None,
{
    if name_given && type_given {
        Some("UPDATE lists SET name = ?, type_id = ?, updated_at = datetime('now') WHERE id = ?")
    } else if name_given {
        Some("UPDATE lists SET name = ?, updated_at = datetime('now') WHERE id = ?")
    } else if type_given {
        Some("UPDATE lists SET type_id = ?, updated_at = datetime('now') WHERE id = ?")
    } else {
        None
    }
}

} // verus!
