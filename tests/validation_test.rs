use home_library::errors::ApiError;
use home_library::headers::{extract_user_id_from_headers, optional_user_id, RawHeader};
use home_library::models::{CreateBookRequest, UpsertRatingRequest, UpsertStatusRequest};
use home_library::validate::{
    blank, check_book_id, check_rating_request, check_status_request, needs_default_cover,
    new_book_links, parse_rating, prepare_new_book, StatusKind,
};
use home_library::statements::Statement;
use home_library::statements::Relation;

fn rating(text: &str) -> Result<u8, ApiError> {
    check_rating_request(&UpsertRatingRequest { rating: text.to_string() })
}

#[test]
fn rating_rejects_value_off_the_half_star_grid() {
    assert_eq!(rating("4.3"), Err(ApiError::BadRequest));
    assert_eq!(rating("0.25"), Err(ApiError::BadRequest));
    assert_eq!(rating("2.05"), Err(ApiError::BadRequest));
}

#[test]
fn rating_accepts_half_stars() {
    assert_eq!(rating("4.5"), Ok(9));
    assert_eq!(rating("0.5"), Ok(1));
    assert_eq!(rating("4.50"), Ok(9));
    assert_eq!(rating("3"), Ok(6));
}

#[test]
fn rating_rejects_out_of_range() {
    assert_eq!(rating("-1"), Err(ApiError::BadRequest));
    assert_eq!(rating("5.5"), Err(ApiError::BadRequest));
    assert_eq!(rating("6"), Err(ApiError::BadRequest));
    assert_eq!(rating("123456789012345678901234567890"), Err(ApiError::BadRequest));
}

#[test]
fn rating_bounds_are_inclusive() {
    assert_eq!(parse_rating("0"), Ok(0));
    assert_eq!(parse_rating("5"), Ok(10));
    assert_eq!(parse_rating("5.0"), Ok(10));
    assert_eq!(parse_rating("-0"), Ok(0));
    assert_eq!(parse_rating("00005"), Ok(10));
}

#[test]
fn rating_rejects_malformed_numerals() {
    for t in ["", ".", "4.", ".5", "-", "abc", "NaN", "inf", "1e1", "4.5.0", " 4", "+4", "4,5"] {
        assert_eq!(parse_rating(t), Err(ApiError::BadRequest), "{t}");
    }
}

#[test]
fn rating_matches_float_display_of_valid_values() {
    for halves in 0u8..=10 {
        let f = halves as f64 / 2.0;
        assert_eq!(parse_rating(&format!("{}", f)), Ok(halves));
    }
    assert_eq!(parse_rating(&format!("{}", 4.3f64)), Err(ApiError::BadRequest));
    assert_eq!(parse_rating(&format!("{}", -0.0f64)), Ok(0));
}

#[test]
fn status_ids_accepted_and_rejected() {
    for id in [0i64, 1, 2, 3, 99] {
        assert_eq!(check_status_request(&UpsertStatusRequest { status_id: id }), Ok(id));
    }
    for id in [5i64, 4, -1, 100, 98] {
        assert_eq!(
            check_status_request(&UpsertStatusRequest { status_id: id }),
            Err(ApiError::BadRequest)
        );
    }
}

#[test]
fn status_kinds_round_trip() {
    assert_eq!(StatusKind::from_id(99), Some(StatusKind::DidNotFinish));
    assert_eq!(StatusKind::from_id(3).map(|k| k.id()), Some(3));
    assert_eq!(StatusKind::from_id(5), None);
    assert_eq!(StatusKind::Unread.id(), 0);
}

#[test]
fn header_user_id_parsing() {
    assert_eq!(extract_user_id_from_headers(&RawHeader::Missing), Err(ApiError::BadRequest));
    assert_eq!(extract_user_id_from_headers(&RawHeader::NotText), Err(ApiError::BadRequest));
    assert_eq!(extract_user_id_from_headers(&RawHeader::Text("12".to_string())), Ok(12));
    assert_eq!(extract_user_id_from_headers(&RawHeader::Text("+7".to_string())), Ok(7));
    assert_eq!(extract_user_id_from_headers(&RawHeader::Text("-3".to_string())), Ok(-3));
    assert_eq!(
        extract_user_id_from_headers(&RawHeader::Text("9223372036854775807".to_string())),
        Ok(i64::MAX)
    );
    for bad in ["", " 1", "1 ", "abc", "1.0", "9223372036854775808", "-", "1_000"] {
        assert_eq!(
            extract_user_id_from_headers(&RawHeader::Text(bad.to_string())),
            Err(ApiError::BadRequest),
            "{bad}"
        );
    }
    assert_eq!(optional_user_id(&RawHeader::Text("5".to_string())), Some(5));
    assert_eq!(optional_user_id(&RawHeader::Missing), None);
    assert_eq!(optional_user_id(&RawHeader::Text("x".to_string())), None);
}

#[test]
fn blank_text() {
    assert!(blank(""));
    assert!(blank("  \t\n"));
    assert!(blank("\u{3000}"));
    assert!(!blank(" a "));
    assert!(!blank("T"));
}

fn request(title: &str, author: &str) -> CreateBookRequest {
    CreateBookRequest {
        cover_image: None,
        title: title.to_string(),
        author: author.to_string(),
        tags: Some(vec![1, 2]),
        genres: None,
        series: Some("S".to_string()),
    }
}

#[test]
fn new_book_needs_title_and_author() {
    assert!(matches!(prepare_new_book(1, request("", "A")), Err(ApiError::BadRequest)));
    assert!(matches!(prepare_new_book(1, request("T", "  ")), Err(ApiError::BadRequest)));
    let n = match prepare_new_book(4, request("T", "A")) {
        Ok(n) => n,
        Err(_) => panic!("a valid request was refused"),
    };
    assert_eq!(n.book.id, 0);
    assert_eq!(n.book.user_id, 4);
    assert_eq!(n.book.title, "T");
    assert_eq!(n.book.author, "A");
    assert_eq!(n.book.series, Some("S".to_string()));
    assert_eq!(n.tags, Some(vec![1, 2]));
    assert_eq!(n.genres, None);
}

#[test]
fn new_book_links_only_for_given_lists() {
    let plans = new_book_links(7, &Some(vec![1, 2]), &Some(vec![]));
    assert_eq!(plans.len(), 1);
    assert_eq!(
        plans[0],
        vec![
            Statement::Unlink { relation: Relation::Tags, book_id: 7 },
            Statement::Link { relation: Relation::Tags, book_id: 7, item_id: 1 },
            Statement::Link { relation: Relation::Tags, book_id: 7, item_id: 2 },
        ]
    );
    let plans = new_book_links(7, &None, &Some(vec![3]));
    assert_eq!(plans.len(), 1);
    assert_eq!(plans[0][1], Statement::Link { relation: Relation::Genres, book_id: 7, item_id: 3 });
    assert_eq!(new_book_links(7, &None, &None).len(), 0);
}

#[test]
fn default_cover_needed_when_missing_or_empty() {
    assert!(needs_default_cover(&None));
    assert!(needs_default_cover(&Some(String::new())));
    assert!(!needs_default_cover(&Some("http://x/c.jpg".to_string())));
}

#[test]
fn book_id_must_be_positive() {
    assert_eq!(check_book_id(0), Err(ApiError::BadRequest));
    assert_eq!(check_book_id(-5), Err(ApiError::BadRequest));
    assert_eq!(check_book_id(3), Ok(3));
}

#[test]
fn error_status_codes() {
    assert_eq!(ApiError::BadRequest.status_code(), 400);
    assert_eq!(ApiError::NotFound.status_code(), 404);
    assert_eq!(ApiError::Internal.status_code(), 500);
}
