use home_library::cover::{
    cover_query_url, default_book_cover_decision, CoverDecision, CoverFetch, BOOK_COVER_API_URL,
};
use home_library::errors::ApiError;
use home_library::models::{UpsertRatingRequest, UpsertStatusRequest};
use home_library::statements::{upsert_rating_query, upsert_status_query};
use home_library::models::{FieldUpdate, Book, JournalEntry, UpdateBookRequest, UpdateUserRequest, User};
use home_library::queries::{
    book_journals_result, current_user_statuses_sql, found_or_not_found, placeholders,
    ratings_for_books_sql, require_row_removed, search_pattern, statuses_for_books_sql,
    write_error, DbError, RATINGS_HEAD, RATINGS_TAIL,
};
use home_library::statements::{
    delete_book_outcome, delete_book_query, list_books_plan, manage_book_relationships,
    update_book_genres, update_book_tags, Relation, Statement,
};
use home_library::updates::{list_update_sql, merge_book_update, merge_journal_update, merge_user_update};

#[test]
fn replace_all_plan_deletes_then_inserts_each_id() {
    let plan = manage_book_relationships(Relation::Genres, 4, &[9, 9, 2]);
    assert_eq!(
        plan,
        vec![
            Statement::Unlink { relation: Relation::Genres, book_id: 4 },
            Statement::Link { relation: Relation::Genres, book_id: 4, item_id: 9 },
            Statement::Link { relation: Relation::Genres, book_id: 4, item_id: 9 },
            Statement::Link { relation: Relation::Genres, book_id: 4, item_id: 2 },
        ]
    );
    assert_eq!(update_book_tags(4, &[]), vec![Statement::Unlink { relation: Relation::Tags, book_id: 4 }]);
    assert_eq!(update_book_genres(4, &[1]).len(), 2);
}

#[test]
fn statement_text_and_arguments() {
    let s = Statement::Unlink { relation: Relation::Tags, book_id: 3 };
    assert_eq!(s.sql(), "DELETE FROM book_tags WHERE book_id = ?");
    assert_eq!(s.params(), vec![3]);
    let s = Statement::Link { relation: Relation::Genres, book_id: 3, item_id: 8 };
    assert_eq!(s.sql(), "INSERT INTO book_genres (book_id, genre_id) VALUES (?, ?)");
    assert_eq!(s.params(), vec![3, 8]);
    let s = Statement::Link { relation: Relation::Tags, book_id: 1, item_id: 2 };
    assert_eq!(s.sql(), "INSERT INTO book_tags (book_id, tag_id) VALUES (?, ?)");
    let s = Statement::AddListBook { list_id: 5, book_id: 6, position: 2 };
    assert_eq!(s.sql(), "INSERT INTO list_books (list_id, book_id, position) VALUES (?, ?, ?)");
    assert_eq!(s.params(), vec![5, 6, 2]);
    assert_eq!(Statement::DeleteBook { book_id: 1 }.sql(), "DELETE FROM books WHERE id = ?");
    let s = Statement::UpsertRating { user_id: 1, book_id: 2, half_stars: 9 };
    assert!(s.sql().starts_with("INSERT INTO ratings (user_id, book_id, rating) VALUES (?, ?, ? / 2.0)"));
    assert_eq!(s.params(), vec![1, 2, 9]);
    assert_eq!(
        Statement::DeleteStatus { user_id: 1, book_id: 2 }.sql(),
        "DELETE FROM reading_status WHERE user_id = ? AND book_id = ?"
    );
}

#[test]
fn rating_and_status_requests_become_statements() {
    assert_eq!(
        upsert_rating_query(3, 4, &UpsertRatingRequest { rating: "4.5".to_string() }),
        Ok(Statement::UpsertRating { user_id: 3, book_id: 4, half_stars: 9 })
    );
    assert_eq!(
        upsert_rating_query(3, 4, &UpsertRatingRequest { rating: "5.5".to_string() }),
        Err(ApiError::BadRequest)
    );
    assert_eq!(
        upsert_status_query(3, 4, &UpsertStatusRequest { status_id: 99 }),
        Ok(Statement::UpsertStatus { user_id: 3, book_id: 4, status_id: 99 })
    );
    assert_eq!(upsert_status_query(3, 4, &UpsertStatusRequest { status_id: 5 }), Err(ApiError::BadRequest));
}

#[test]
fn delete_plan_and_outcome() {
    let plan = delete_book_query(12);
    assert_eq!(
        plan,
        vec![
            Statement::Unlink { relation: Relation::Tags, book_id: 12 },
            Statement::Unlink { relation: Relation::Genres, book_id: 12 },
            Statement::DeleteJournalsOf { book_id: 12 },
            Statement::DeleteBook { book_id: 12 },
        ]
    );
    assert_eq!(delete_book_outcome(0), Err(ApiError::NotFound));
    assert_eq!(delete_book_outcome(1), Ok(()));
    assert_eq!(require_row_removed(0), Err(ApiError::NotFound));
    assert_eq!(require_row_removed(2), Ok(()));
}

#[test]
fn list_plans_keep_order_as_positions() {
    let plan = list_books_plan(3, &[10, 20], false);
    assert_eq!(
        plan,
        vec![
            Statement::AddListBook { list_id: 3, book_id: 10, position: 0 },
            Statement::AddListBook { list_id: 3, book_id: 20, position: 1 },
        ]
    );
    let plan = list_books_plan(3, &[30], true);
    assert_eq!(plan[0], Statement::ClearListBooks { list_id: 3 });
    assert_eq!(plan[1], Statement::AddListBook { list_id: 3, book_id: 30, position: 0 });
    assert_eq!(list_books_plan(3, &[], true), vec![Statement::ClearListBooks { list_id: 3 }]);
}

#[test]
fn list_update_statement_choice() {
    assert_eq!(
        list_update_sql(true, true),
        Some("UPDATE lists SET name = ?, type_id = ?, updated_at = datetime('now') WHERE id = ?")
    );
    assert_eq!(
        list_update_sql(true, false),
        Some("UPDATE lists SET name = ?, updated_at = datetime('now') WHERE id = ?")
    );
    assert_eq!(
        list_update_sql(false, true),
        Some("UPDATE lists SET type_id = ?, updated_at = datetime('now') WHERE id = ?")
    );
    assert_eq!(list_update_sql(false, false), None);
}

#[test]
fn batch_queries_have_one_placeholder_per_book() {
    assert_eq!(placeholders(0), "");
    assert_eq!(placeholders(1), "?");
    assert_eq!(placeholders(3), "?,?,?");
    assert_eq!(ratings_for_books_sql(0), None);
    assert_eq!(ratings_for_books_sql(2), Some(format!("{}?,?{}", RATINGS_HEAD, RATINGS_TAIL)));
    assert!(statuses_for_books_sql(1).unwrap().contains("IN (?) ORDER BY rs.created_at DESC"));
    assert_eq!(
        current_user_statuses_sql(2),
        Some("SELECT book_id, status_id FROM reading_status WHERE user_id = ? AND book_id IN (?,?)".to_string())
    );
    assert_eq!(current_user_statuses_sql(0), None);
}

#[test]
fn search_pattern_wraps_term() {
    assert_eq!(search_pattern("Rust"), "%Rust%");
    assert_eq!(search_pattern(""), "%%");
}

#[test]
fn lookups_and_errors() {
    assert_eq!(found_or_not_found(Some(3)), Ok(3));
    assert_eq!(found_or_not_found::<i64>(None), Err(ApiError::NotFound));
    assert!(matches!(book_journals_result(false, vec![]), Err(ApiError::NotFound)));
    assert!(matches!(book_journals_result(true, vec![]), Ok(v) if v.is_empty()));
    assert_eq!(write_error(DbError::RowNotFound), ApiError::NotFound);
    assert_eq!(write_error(DbError::Other), ApiError::Internal);
}

#[test]
fn cover_url_encodes_title_and_author() {
    assert_eq!(
        cover_query_url("Rust Book", "Steve & Carol"),
        format!("{}?book_title=Rust+Book&author_name=Steve+%26+Carol", BOOK_COVER_API_URL)
    );
    assert_eq!(
        cover_query_url("Café*-._~", "a/b"),
        format!("{}?book_title=Caf%C3%A9*-._%7E&author_name=a%2Fb", BOOK_COVER_API_URL)
    );
}

#[test]
fn cover_decision_falls_back_to_default() {
    assert!(matches!(
        default_book_cover_decision(CoverFetch::Found("http://c/1.jpg".to_string())),
        CoverDecision::Store(u) if u == "http://c/1.jpg"
    ));
    assert!(matches!(default_book_cover_decision(CoverFetch::RequestFailed), CoverDecision::UseDefault));
    assert!(matches!(default_book_cover_decision(CoverFetch::BadStatus), CoverDecision::UseDefault));
    assert!(matches!(default_book_cover_decision(CoverFetch::BadBody), CoverDecision::UseDefault));
}

fn stored_book() -> Book {
    Book {
        id: 8,
        user_id: 1,
        cover_image: Some("c.jpg".to_string()),
        title: "Old".to_string(),
        author: "Auth".to_string(),
        series: Some("S1".to_string()),
        created_at: Some("2025-01-01".to_string()),
        updated_at: Some("2025-01-02".to_string()),
    }
}

#[test]
fn book_update_keeps_absent_fields() {
    let req = UpdateBookRequest {
        cover_image: FieldUpdate::Unset,
        title: Some("New".to_string()),
        author: None,
        tags: Some(vec![]),
        genres: None,
        series: FieldUpdate::SetToNull,
    };
    let u = merge_book_update(8, 2, stored_book(), req);
    assert_eq!(u.book.id, 8);
    assert_eq!(u.book.user_id, 2);
    assert_eq!(u.book.title, "New");
    assert_eq!(u.book.author, "Auth");
    assert_eq!(u.book.cover_image, Some("c.jpg".to_string()));
    assert_eq!(u.book.series, None);
    assert_eq!(u.book.created_at, Some("2025-01-01".to_string()));
    assert_eq!(u.tags, Some(vec![]));
    assert_eq!(u.genres, None);
    let req = UpdateBookRequest {
        cover_image: FieldUpdate::SetTo("n.jpg".to_string()),
        title: None,
        author: None,
        tags: None,
        genres: None,
        series: FieldUpdate::Unset,
    };
    let u = merge_book_update(8, 1, stored_book(), req);
    assert_eq!(u.book.cover_image, Some("n.jpg".to_string()));
    assert_eq!(u.book.series, Some("S1".to_string()));
    assert_eq!(u.book.title, "Old");
}

#[test]
fn journal_and_user_updates_keep_absent_fields() {
    let j = JournalEntry {
        id: 1,
        book_id: 2,
        user_id: 3,
        title: "t".to_string(),
        content: "c".to_string(),
        created_at: None,
        updated_at: None,
    };
    assert_eq!(merge_journal_update(j, None, Some("c2".to_string())), ("t".to_string(), "c2".to_string()));
    let u = User {
        id: 1,
        name: "n".to_string(),
        color: "#fff".to_string(),
        avatar_image: Some("a.png".to_string()),
        created_at: None,
        updated_at: None,
        last_login: None,
    };
    let r = merge_user_update(u, UpdateUserRequest { name: Some("m".to_string()), color: None, avatar_image: None });
    assert_eq!(r.name, "m");
    assert_eq!(r.color, "#fff");
    assert_eq!(r.avatar_image, Some("a.png".to_string()));
}
