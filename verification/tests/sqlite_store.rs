//! End-to-end checks against a real SQLite metadata store.

use seshat::errors::AppError;
use seshat::feed::{explore_catalog_feed, library_root_feed, root_feed};
use seshat::library::{Libraries, Library};
use seshat::sql::OrderBooksBy;
use seshat::utils::hash_str;

fn create_store(path: &str) {
    let conn = rusqlite::Connection::open(path).expect("create store");
    conn.execute_batch(
        "DROP TABLE IF EXISTS books;
         DROP TABLE IF EXISTS comments;
         DROP TABLE IF EXISTS authors;
         DROP TABLE IF EXISTS books_authors_link;
         DROP TABLE IF EXISTS languages;
         DROP TABLE IF EXISTS books_languages_link;
         DROP TABLE IF EXISTS tags;
         DROP TABLE IF EXISTS books_tags_link;
         DROP TABLE IF EXISTS data;
         CREATE TABLE books (
             id INTEGER PRIMARY KEY, title TEXT, sort TEXT, author_sort TEXT,
             timestamp TEXT, pubdate TEXT, uuid TEXT, has_cover BOOL,
             last_modified TEXT, path TEXT
         );
         CREATE TABLE comments (book INTEGER, text TEXT);
         CREATE TABLE authors (id INTEGER PRIMARY KEY, name TEXT);
         CREATE TABLE books_authors_link (book INTEGER, author INTEGER);
         CREATE TABLE languages (id INTEGER PRIMARY KEY, lang_code TEXT);
         CREATE TABLE books_languages_link (book INTEGER, lang_code INTEGER);
         CREATE TABLE tags (id INTEGER PRIMARY KEY, name TEXT);
         CREATE TABLE books_tags_link (book INTEGER, tag INTEGER);
         CREATE TABLE data (book INTEGER, format TEXT, name TEXT, uncompressed_size INTEGER);
         INSERT INTO books VALUES
             (1, 'Gamma', 'Gamma', 'Cleo', '2024-01-03 08:00:00+00:00', NULL,
              'uuid-g', 0, '2024-01-10 08:00:00+00:00', 'Cleo/Gamma (1)'),
             (2, 'Alpha', 'Alpha', 'Ann', '2024-01-01 08:00:00+00:00', '2020-05-01 00:00:00+00:00',
              NULL, 1, '2024-01-11 08:00:00+00:00', 'Ann/Alpha (2)'),
             (3, 'Beta', 'Beta', 'Bob', '2024-01-02 08:00:00+00:00', NULL,
              'uuid-b', 0, '2024-01-12 08:00:00+00:00', 'Bob/Beta (3)');
         INSERT INTO comments VALUES (2, 'A fine first book');
         INSERT INTO authors VALUES (10, 'Ann'), (11, 'Bob'), (12, 'Cleo');
         INSERT INTO books_authors_link VALUES (1, 12), (2, 10), (3, 11);
         INSERT INTO languages VALUES (20, 'eng'), (21, 'deu');
         INSERT INTO books_languages_link VALUES (2, 20), (1, 21);
         INSERT INTO tags VALUES (30, 'fiction'), (31, 'space');
         INSERT INTO books_tags_link VALUES (2, 31), (3, 30);
         INSERT INTO data VALUES
             (2, 'EPUB', 'Alpha - Ann', 111),
             (2, 'PDF', 'Alpha - Ann', 222),
             (1, 'EPUB', 'Gamma - Cleo', 333);",
    )
    .expect("populate store");
}

#[test]
fn sqlite_roundtrip() {
    create_store("/tmp/metadata.db");
    let lib = Library::open(
        "main".to_string(),
        "/tmp".to_string(),
        "2024-02-01T00:00:00Z".to_string(),
    )
    .expect("open library");

    // Identity of the library.
    assert_eq!(lib.name(), "main");
    assert_eq!(lib.root_path(), "/tmp");
    assert_eq!(lib.updated_at(), "2024-02-01T00:00:00Z");
    let expected_feed_id = format!("urn:seshat:lib-{}", hash_str("main"));
    assert_eq!(lib.acquisition_feed_id(), expected_feed_id);
    assert_eq!(lib.len().expect("count"), 3);

    // First page by title, with lookahead.
    let (page, has_next) = lib.fetch_books(2, 0, OrderBooksBy::Title).expect("fetch");
    let titles: Vec<&str> = page.iter().map(|b| b.title.as_str()).collect();
    assert_eq!(titles, vec!["Alpha", "Beta"]);
    assert!(has_next);

    // Aggregation: Alpha carries exactly its own children.
    let alpha = &page[0];
    assert_eq!(alpha.id, 2);
    assert_eq!(alpha.uuid, None);
    assert_eq!(alpha.authors, vec!["Ann".to_string()]);
    assert_eq!(alpha.languages, vec!["eng".to_string()]);
    assert_eq!(alpha.tags, vec!["space".to_string()]);
    assert_eq!(alpha.content.as_deref(), Some("A fine first book"));
    assert!(alpha.has_cover);
    assert_eq!(alpha.data.len(), 2);
    // Formats come back lower-cased.
    assert_eq!(alpha.data[0].format, "epub");
    assert_eq!(alpha.data[1].format, "pdf");
    assert_eq!(alpha.data[0].file_size, 111);
    let beta = &page[1];
    assert_eq!(beta.uuid.as_deref(), Some("uuid-b"));
    assert_eq!(beta.authors, vec!["Bob".to_string()]);
    assert!(beta.languages.is_empty());
    assert_eq!(beta.data.len(), 0);

    // Second page.
    let (page2, has_next2) = lib.fetch_books(2, 2, OrderBooksBy::Title).expect("fetch");
    let titles2: Vec<&str> = page2.iter().map(|b| b.title.as_str()).collect();
    assert_eq!(titles2, vec!["Gamma"]);
    assert!(!has_next2);

    // Newest first under the date-added order.
    let (by_date, _) = lib.fetch_books(3, 0, OrderBooksBy::DateAdded).expect("fetch");
    let titles3: Vec<&str> = by_date.iter().map(|b| b.title.as_str()).collect();
    assert_eq!(titles3, vec!["Gamma", "Beta", "Alpha"]);

    // Author sort.
    let (by_author, _) = lib.fetch_books(3, 0, OrderBooksBy::Author).expect("fetch");
    let titles4: Vec<&str> = by_author.iter().map(|b| b.title.as_str()).collect();
    assert_eq!(titles4, vec!["Alpha", "Beta", "Gamma"]);

    // Two identical fetches against the unchanged store agree.
    let (again, next_again) = lib.fetch_books(2, 0, OrderBooksBy::Title).expect("fetch");
    assert_eq!(next_again, has_next);
    assert_eq!(again.len(), page.len());
    for (a, b) in again.iter().zip(page.iter()) {
        assert_eq!(a.id, b.id);
        assert_eq!(a.title, b.title);
        assert_eq!(a.authors, b.authors);
    }

    // Content resolution against this library's root.
    assert_eq!(
        lib.resolve_content("/tmp/Ann/Alpha (2)/file.epub", false),
        Ok("/tmp/Ann/Alpha (2)/file.epub".to_string())
    );
    assert_eq!(
        lib.resolve_content("/etc/passwd", false),
        Err(AppError::FileNotFound)
    );
    assert_eq!(
        lib.resolve_content("/tmp/metadata.db", false),
        Err(AppError::FileNotFound)
    );

    // Feeds over the real library.
    let lrf = library_root_feed(&lib);
    assert_eq!(lrf.title, "Seshat – OPDS Catalog");
    assert_eq!(lrf.entries.len(), 4);
    assert_eq!(lrf.subtitle.as_deref(), Some("Exploring the \"main\" library"));
    assert_eq!(lrf.entries[0].links[0].href, "/opds/main/explore");
    assert_eq!(lrf.entries[1].links[0].href, "/opds/main/explore?sort=date_added");
    assert_eq!(
        lrf.entries[1].links[0].rel.as_deref(),
        Some("http://opds-spec.org/sort/new")
    );

    let feed = explore_catalog_feed(&lib, &page, has_next, 2, 0, OrderBooksBy::Title, 3);
    assert_eq!(feed.entries.len(), 2);
    assert_eq!(feed.entries[0].id, "urn:id:2");
    assert_eq!(feed.entries[1].id, "urn:uuid:uuid-b");
    let rels: Vec<Option<&str>> = feed.links.iter().map(|l| l.rel.as_deref()).collect();
    assert_eq!(rels, vec![Some("start"), Some("first"), Some("last"), Some("next")]);
    assert_eq!(feed.links[1].href, "/opds/main/explore?sort=title&offset=0&limit=2");
    assert_eq!(feed.links[2].href, "/opds/main/explore?sort=title&offset=1&limit=2");
    assert_eq!(feed.links[3].href, "/opds/main/explore?sort=title&offset=2&limit=2");
    // The acquisition link of Alpha's first file.
    assert_eq!(
        feed.entries[0].links[0].href,
        "/lib-content/main/Ann%2FAlpha%20%282%29/Alpha%20%2D%20Ann.epub"
    );
    assert_eq!(feed.entries[0].links[0].kind, "application/epub+zip");

    // Registry behaviour.
    let mut registry = Libraries::new();
    registry.register(lib).expect("register");
    assert!(registry.get("main").is_some());
    assert!(registry.get("other").is_none());
    let dup = Library::open(
        "main".to_string(),
        "/tmp".to_string(),
        "2024-02-01T00:00:00Z".to_string(),
    )
    .expect("open twice");
    assert_eq!(registry.register(dup), Err(AppError::DuplicateName));
    assert_eq!(registry.get_all().len(), 1);

    let rf = root_feed(&registry);
    assert_eq!(rf.id, "urn:seshat:root");
    assert_eq!(rf.entries.len(), 1);
    assert_eq!(rf.entries[0].title, "main");
    assert_eq!(rf.updated, "2024-02-01T00:00:00Z");

    // A bad root is refused outright.
    let bad = Library::open("x".to_string(), "tmp/".to_string(), "now".to_string());
    assert!(matches!(bad, Err(AppError::BadRootPath)));

    // Exploration links drop absent parameters and keep the fixed order.
    let lib = registry.get("main").expect("registered");
    assert_eq!(
        seshat::links::explore_lib_with_query(None, None, None, lib),
        "/opds/main/explore"
    );
    assert_eq!(
        seshat::links::explore_lib_with_query(Some(OrderBooksBy::Author), None, Some(7), lib),
        "/opds/main/explore?sort=author&limit=7"
    );
    assert_eq!(
        seshat::links::explore_lib_with_query(None, Some(10), None, lib),
        "/opds/main/explore?offset=10"
    );
    assert_eq!(
        seshat::links::lib_root(lib),
        "/opds/main"
    );
    assert_eq!(
        seshat::links::explore_lib(lib, Some("title")),
        "/opds/main/explore?sort=title"
    );
}
