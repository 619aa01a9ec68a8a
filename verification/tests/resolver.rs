use seshat::errors::AppError;
use seshat::library::clamp_limit;
use seshat::resolve::{is_valid_root, resolve_content_path};

#[test]
fn traversal_outside_root_is_not_found() {
    // A request for `../../etc/passwd` canonicalizes outside the root.
    let r = resolve_content_path("/lib", "/etc/passwd", false);
    assert_eq!(r, Err(AppError::FileNotFound));
}

#[test]
fn root_level_file_is_not_found() {
    // The metadata store itself sits directly at the root.
    let r = resolve_content_path("/lib", "/lib/metadata.db", false);
    assert_eq!(r, Err(AppError::FileNotFound));
}

#[test]
fn sibling_prefix_does_not_count_as_containment() {
    let r = resolve_content_path("/lib", "/library2/Author/Book/file.epub", false);
    assert_eq!(r, Err(AppError::FileNotFound));
}

#[test]
fn root_itself_is_not_found() {
    let r = resolve_content_path("/lib", "/lib", true);
    assert_eq!(r, Err(AppError::FileNotFound));
}

#[test]
fn directories_are_not_found() {
    let r = resolve_content_path("/lib", "/lib/Author/Book", true);
    assert_eq!(r, Err(AppError::FileNotFound));
}

#[test]
fn nested_file_resolves() {
    let r = resolve_content_path("/lib", "/lib/Author/Book/file.epub", false);
    assert_eq!(r, Ok("/lib/Author/Book/file.epub".to_string()));
}

#[test]
fn deeply_nested_file_resolves() {
    let r = resolve_content_path("/srv/books", "/srv/books/A/B/C/d.pdf", false);
    assert_eq!(r, Ok("/srv/books/A/B/C/d.pdf".to_string()));
}

#[test]
fn first_level_file_is_rejected() {
    // One level below the root is still too shallow: books live in folders.
    let r = resolve_content_path("/lib", "/lib/cover.jpg", false);
    assert_eq!(r, Err(AppError::FileNotFound));
}

#[test]
fn valid_roots() {
    assert!(is_valid_root("/lib"));
    assert!(is_valid_root("/srv/books"));
    assert!(!is_valid_root(""));
    assert!(!is_valid_root("lib"));
    assert!(!is_valid_root("/lib/"));
    assert!(!is_valid_root("/"));
}

#[test]
fn limit_boundaries_are_clamped() {
    assert_eq!(clamp_limit(None), 25);
    assert_eq!(clamp_limit(Some(0)), 1);
    assert_eq!(clamp_limit(Some(1)), 1);
    assert_eq!(clamp_limit(Some(25)), 25);
    assert_eq!(clamp_limit(Some(50)), 50);
    assert_eq!(clamp_limit(Some(51)), 50);
    assert_eq!(clamp_limit(Some(usize::MAX)), 50);
}
