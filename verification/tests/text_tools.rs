use seshat::entities::{Data, FullBook};
use seshat::errors::AppError;
use seshat::library::pair_names_paths;
use seshat::feed::{mime_for_format, Link, LinkRel, LinkType};
use seshat::links::{book_cover, download_book};
use seshat::sql::OrderBooksBy;
use seshat::utils::{
    ascii_lowercase, hash_str, hex_lower, i64_to_string, str_eq, str_le, u64_to_string,
    usize_to_string,
};

fn sample_book() -> FullBook {
    FullBook {
        id: 5,
        uuid: None,
        title: "A Book".to_string(),
        added_at: None,
        published_at: None,
        last_modified_at: "2024-01-01 00:00:00+00:00".to_string(),
        path: "Ann/A Book (5)".to_string(),
        has_cover: true,
        authors: vec![],
        languages: vec![],
        tags: vec![],
        content: None,
        data: vec![],
    }
}

#[test]
fn decimal_rendering() {
    assert_eq!(u64_to_string(0), "0");
    assert_eq!(u64_to_string(7), "7");
    assert_eq!(u64_to_string(10), "10");
    assert_eq!(u64_to_string(90210), "90210");
    assert_eq!(u64_to_string(u64::MAX), "18446744073709551615");
    assert_eq!(usize_to_string(123), "123");
    assert_eq!(i64_to_string(-1), "-1");
    assert_eq!(i64_to_string(42), "42");
    assert_eq!(i64_to_string(i64::MIN), "-9223372036854775808");
}

#[test]
fn hex_rendering() {
    assert_eq!(hex_lower(&vec![]), "");
    assert_eq!(hex_lower(&vec![0x00, 0xff, 0x1a]), "00ff1a");
}

#[test]
fn sha3_of_empty_string_matches_known_digest() {
    assert_eq!(
        hash_str(""),
        "a7ffc6f8bf1ed76651c14756a061d662f580ff4de43b49fa82d80a4b80f8434a"
    );
}

#[test]
fn hashing_is_stable_and_input_sensitive() {
    assert_eq!(hash_str("main"), hash_str("main"));
    assert_ne!(hash_str("main"), hash_str("Main"));
    assert_eq!(hash_str("main").len(), 64);
}

#[test]
fn ascii_lowercasing() {
    assert_eq!(ascii_lowercase("EPUB"), "epub");
    assert_eq!(ascii_lowercase("MiXeD123"), "mixed123");
    assert_eq!(ascii_lowercase("schon"), "schon");
    assert_eq!(ascii_lowercase(""), "");
}

#[test]
fn string_comparisons() {
    assert!(str_eq("abc", "abc"));
    assert!(!str_eq("abc", "abd"));
    assert!(!str_eq("abc", "ab"));
    assert!(str_le("1970-01-01T00:00:00Z", "2024-02-01T00:00:00Z"));
    assert!(!str_le("2024-02-01T00:00:00Z", "1970-01-01T00:00:00Z"));
    assert!(str_le("abc", "abc"));
    assert!(str_le("ab", "abc"));
}

#[test]
fn download_links_percent_encode_every_odd_byte() {
    let book = sample_book();
    let data = Data {
        file_name: "A Book - Ann".to_string(),
        file_size: 1,
        format: "epub".to_string(),
        book_id: 5,
    };
    assert_eq!(
        download_book("my lib", &book, &data),
        "/lib-content/my%20lib/Ann%2FA%20Book%20%285%29/A%20Book%20%2D%20Ann.epub"
    );
    assert_eq!(
        book_cover("my lib", &book),
        "/lib-content/my%20lib/Ann%2FA%20Book%20%285%29/cover.jpg"
    );
}

#[test]
fn mime_guessing_with_default() {
    assert_eq!(mime_for_format("epub"), "application/epub+zip");
    assert_eq!(mime_for_format("pdf"), "application/pdf");
    assert_eq!(mime_for_format("definitely-not-a-format"), "*/*");
}

#[test]
fn link_tables() {
    assert_eq!(
        LinkType::Acquisition.as_str(),
        "application/atom+xml;profile=opds-catalog;kind=acquisition"
    );
    assert_eq!(
        LinkType::Navigation.as_str(),
        "application/atom+xml;profile=opds-catalog;kind=navigation"
    );
    assert_eq!(LinkRel::Start.as_str(), "start");
    assert_eq!(LinkRel::Acquisition.as_str(), "http://opds-spec.org/acquisition");
    let start = Link::start();
    assert_eq!(start.href, "/opds");
    assert_eq!(start.rel.as_deref(), Some("start"));
}

#[test]
fn sort_order_round_trips_through_its_query_value() {
    for order in [OrderBooksBy::DateAdded, OrderBooksBy::Title, OrderBooksBy::Author] {
        assert_eq!(OrderBooksBy::from_query_value(order.as_query_value()), Some(order));
    }
    assert_eq!(OrderBooksBy::from_query_value("pubdate"), None);
    assert_eq!(OrderBooksBy::from_query_value(""), None);
}

#[test]
fn startup_pairing_and_errors() {
    let names = vec!["a".to_string(), "b".to_string()];
    let paths = vec!["/x".to_string(), "/y".to_string()];
    let pairs = pair_names_paths(&names, &paths).unwrap();
    assert_eq!(pairs.len(), 2);
    assert_eq!(pairs[0], ("a".to_string(), "/x".to_string()));
    assert_eq!(pairs[1], ("b".to_string(), "/y".to_string()));
    let short = vec!["/x".to_string()];
    assert_eq!(pair_names_paths(&names, &short), Err(AppError::MissingPath));
    assert_eq!(AppError::FileNotFound.message(), "File does not exist");
    assert_eq!(AppError::file_not_found(), AppError::FileNotFound);
}

#[test]
fn sort_strategies_share_one_window_clause() {
    for order in [OrderBooksBy::DateAdded, OrderBooksBy::Title, OrderBooksBy::Author] {
        let qs = order.as_sql_query();
        for q in [&qs.books, &qs.authors, &qs.languages, &qs.tags, &qs.data] {
            assert!(q.contains(" LIMIT ?1 OFFSET ?2"));
        }
        assert!(qs.books.ends_with(" LIMIT ?1 OFFSET ?2"));
    }
    let qs = OrderBooksBy::Title.as_sql_query();
    assert!(qs.books.contains("ORDER BY sort ASC"));
    let qs = OrderBooksBy::DateAdded.as_sql_query();
    assert!(qs.authors.contains("ORDER BY timestamp DESC"));
}
