use seshat::entities::{Author, Data, FullBook, Language, Tag};
use seshat::fetch::BookStore;

fn book(id: i64, title: &str) -> FullBook {
    FullBook {
        id,
        uuid: None,
        title: title.to_string(),
        added_at: None,
        published_at: None,
        last_modified_at: "2024-01-01 00:00:00+00:00".to_string(),
        path: format!("Author/{title}"),
        has_cover: false,
        authors: Vec::new(),
        languages: Vec::new(),
        tags: Vec::new(),
        content: None,
        data: Vec::new(),
    }
}

/// A store of three books whose materialized order is by title.
fn three_book_store() -> BookStore {
    BookStore {
        books: vec![book(1, "Alpha"), book(2, "Beta"), book(3, "Gamma")],
        authors: vec![
            Author { name: "Ann".to_string(), book_id: 1 },
            Author { name: "Bob".to_string(), book_id: 2 },
            Author { name: "Cleo".to_string(), book_id: 3 },
            Author { name: "Ann Second".to_string(), book_id: 1 },
        ],
        languages: vec![
            Language { lang_code: "eng".to_string(), book_id: 1 },
            Language { lang_code: "deu".to_string(), book_id: 3 },
        ],
        tags: vec![
            Tag { name: "fiction".to_string(), book_id: 2 },
            Tag { name: "space".to_string(), book_id: 1 },
        ],
        data: vec![
            Data {
                file_name: "alpha".to_string(),
                file_size: 100,
                format: "epub".to_string(),
                book_id: 1,
            },
            Data {
                file_name: "gamma".to_string(),
                file_size: 300,
                format: "pdf".to_string(),
                book_id: 3,
            },
        ],
    }
}

#[test]
fn scenario_first_page_by_title() {
    let store = three_book_store();
    let (page, has_next) = store.fetch_books(2, 0);
    let titles: Vec<&str> = page.iter().map(|b| b.title.as_str()).collect();
    assert_eq!(titles, vec!["Alpha", "Beta"]);
    assert!(has_next);
}

#[test]
fn scenario_last_page_by_title() {
    let store = three_book_store();
    let (page, has_next) = store.fetch_books(2, 2);
    let titles: Vec<&str> = page.iter().map(|b| b.title.as_str()).collect();
    assert_eq!(titles, vec!["Gamma"]);
    assert!(!has_next);
}

#[test]
fn no_next_page_when_window_ends_exactly() {
    let store = three_book_store();
    let (page, has_next) = store.fetch_books(3, 0);
    assert_eq!(page.len(), 3);
    assert!(!has_next);
    let (page, has_next) = store.fetch_books(1, 2);
    assert_eq!(page.len(), 1);
    assert!(!has_next);
}

#[test]
fn offset_beyond_end_is_empty() {
    let store = three_book_store();
    let (page, has_next) = store.fetch_books(2, 3);
    assert!(page.is_empty());
    assert!(!has_next);
    let (page, has_next) = store.fetch_books(2, 50);
    assert!(page.is_empty());
    assert!(!has_next);
}

#[test]
fn children_attach_to_their_own_book_only() {
    let store = three_book_store();
    let (page, _) = store.fetch_books(3, 0);
    let alpha = &page[0];
    assert_eq!(alpha.authors, vec!["Ann".to_string(), "Ann Second".to_string()]);
    assert_eq!(alpha.languages, vec!["eng".to_string()]);
    assert_eq!(alpha.tags, vec!["space".to_string()]);
    assert_eq!(alpha.data.len(), 1);
    assert_eq!(alpha.data[0].file_name, "alpha");
    let beta = &page[1];
    assert_eq!(beta.authors, vec!["Bob".to_string()]);
    assert!(beta.languages.is_empty());
    assert_eq!(beta.tags, vec!["fiction".to_string()]);
    assert!(beta.data.is_empty());
    let gamma = &page[2];
    assert_eq!(gamma.authors, vec!["Cleo".to_string()]);
    assert_eq!(gamma.languages, vec!["deu".to_string()]);
    assert!(gamma.tags.is_empty());
    assert_eq!(gamma.data[0].format, "pdf");
}

#[test]
fn children_of_other_pages_never_leak_in() {
    let store = three_book_store();
    let (page, _) = store.fetch_books(1, 1);
    assert_eq!(page.len(), 1);
    let beta = &page[0];
    assert_eq!(beta.title, "Beta");
    assert_eq!(beta.authors, vec!["Bob".to_string()]);
    assert!(beta.data.is_empty());
}

#[test]
fn fetch_is_idempotent_on_unchanged_store() {
    let store = three_book_store();
    let (page_a, next_a) = store.fetch_books(2, 1);
    let (page_b, next_b) = store.fetch_books(2, 1);
    assert_eq!(next_a, next_b);
    assert_eq!(page_a.len(), page_b.len());
    for (a, b) in page_a.iter().zip(page_b.iter()) {
        assert_eq!(a.id, b.id);
        assert_eq!(a.title, b.title);
        assert_eq!(a.authors, b.authors);
        assert_eq!(a.languages, b.languages);
        assert_eq!(a.tags, b.tags);
        assert_eq!(a.data.len(), b.data.len());
    }
}

#[test]
fn limit_larger_than_store_returns_everything() {
    let store = three_book_store();
    let (page, has_next) = store.fetch_books(50, 0);
    assert_eq!(page.len(), 3);
    assert!(!has_next);
}

#[test]
fn uri_prefers_uuid() {
    let mut b = book(7, "Alpha");
    assert_eq!(b.uri(), "urn:id:7");
    b.uuid = Some("0a1b2c".to_string());
    assert_eq!(b.uri(), "urn:uuid:0a1b2c");
}
