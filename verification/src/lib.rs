//! A small catalog engine for read-only ebook libraries.
//!
//! The crate models one or more libraries, each backed by a read-only
//! relational metadata store and a canonical root directory.  It offers a
//! paginated, sorted view of the books in a library together with their
//! authors, languages, tags and file entries, and a secure resolver that
//! validates client-supplied content paths against the library root.

pub mod db;
pub mod entities;
pub mod errors;
pub mod feed;
pub mod fetch;
pub mod library;
pub mod links;
pub mod resolve;
pub mod sql;
pub mod utils;
