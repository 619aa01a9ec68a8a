use vstd::prelude::*;

use crate::db::count_books;
use crate::db::open_read_only;
use crate::db::query_authors;
use crate::db::query_books;
use crate::db::query_data;
use crate::db::query_languages;
use crate::db::query_tags;
use crate::entities::Data;
use crate::entities::DataV;
use crate::entities::FullBook;
use crate::errors::AppError;
use crate::fetch::assemble_page;
use crate::fetch::store_page;
use crate::fetch::StoreV;
use crate::resolve::is_valid_root;
use crate::resolve::path_within_library;
use crate::resolve::resolve_content_path;
use crate::resolve::valid_root;
use crate::sql::OrderBooksBy;
use crate::utils::ascii_lower_of;
use crate::utils::ascii_lowercase;
use crate::utils::derive_feed_id;
use crate::utils::feed_id_of;
use crate::utils::push_tracked;

verus! {

/// The smallest page size a caller may request.
pub const MIN_PAGE_SIZE: usize = 1;

/// The page size used when a caller requests none.
pub const DEFAULT_PAGE_SIZE: usize = 25;

/// The largest page size a caller may request.
pub const MAX_PAGE_SIZE: usize = 50;

/// Clamps a requested page size into `[MIN_PAGE_SIZE, MAX_PAGE_SIZE]`,
/// falling back to `DEFAULT_PAGE_SIZE` when none was requested.  Every
/// window reaching the fetcher passes through here first.
pub fn clamp_limit(requested: Option<usize>) -> (r: usize)
    ensures
        r == (match requested {
            Option::None => 25int,
            Option::Some(l) => if l < 1 {
                1int
            } else if l > 50 {
                50int
            } else {
                l as int
            },
        }),
        1 <= r <= 50,
{
    match requested {
        None => DEFAULT_PAGE_SIZE,
        Some(l) => {
            if l < MIN_PAGE_SIZE {
                MIN_PAGE_SIZE
            } else if l > MAX_PAGE_SIZE {
                MAX_PAGE_SIZE
            } else {
                l
            }
        },
    }
}

/// The raw format texts of a row sequence lower-cased, everything else
/// unchanged.
pub open spec fn lowered_formats(rows: Seq<DataV>) -> Seq<DataV> {
    rows.map_values(|d: DataV| DataV { format: ascii_lower_of(d.format), ..d })
}

/// Lower-cases the format of every file row, as the store's producer spells
/// formats in upper case.
fn normalize_formats(rows: &Vec<Data>) -> (r: Vec<Data>)
    ensures
        r.deep_view() == lowered_formats(rows.deep_view()),
{
    let mut out: Vec<Data> = Vec::new();
    let mut i: usize = 0;
    while i < rows.len()
        invariant
            i <= rows@.len(),
            out.deep_view() =~= lowered_formats(rows.deep_view().take(i as int)),
        decreases rows@.len() - i,
    {
        let d = Data {
            file_name: rows[i].file_name.clone(),
            file_size: rows[i].file_size,
            format: ascii_lowercase(rows[i].format.as_str()),
            book_id: rows[i].book_id,
        };
        proof {
            assert(d.deep_view() == lowered_formats(rows.deep_view())[i as int]);
        }
        push_tracked(&mut out, d);
        proof {
            assert(out.deep_view() =~= lowered_formats(rows.deep_view().take(i + 1)));
        }
        i += 1;
    }
    proof {
        assert(rows.deep_view().take(rows@.len() as int) =~= rows.deep_view());
    }
    out
}

/// A store row count squeezed into a `usize`: negative values become zero
/// and values above a machine bound no real store reaches are capped there.
pub open spec fn clamped_count(n: int) -> int {
    if n < 0 {
        0
    } else if n > 0x7fff_ffff {
        0x7fff_ffff
    } else {
        n
    }
}

/// Clamps one store row count as [`clamped_count`] says.
fn clamp_count(n: i64) -> (r: usize)
    ensures
        r as int == clamped_count(n as int),
{
    if n < 0 {
        0
    } else if n > 0x7fff_ffff {
        0x7fff_ffff
    } else {
        n as usize
    }
}

// ---------------------------------------------------------------------------
// One library
// ---------------------------------------------------------------------------

/// One ebook library: a canonical root directory, a read-only connection
/// to its metadata store, the store file's last-modified stamp, and a
/// stable feed identifier derived from the library name.
pub struct Library {
    /// Last-modified stamp of the metadata store file, rendered in one
    /// fixed UTC text format at startup.
    pub modified_at: String,
    /// Canonical absolute path of the library root directory.
    pub root_path: String,
    /// Read-only connection to the metadata store.
    pub metadata_db: rusqlite::Connection,
    /// The registered name of the library.
    pub name: String,
    /// Stable feed identifier, a one-way function of the name.
    pub acquisition_feed_id: String,
}

/// The mathematical view of a [`Library`]: everything but the connection,
/// which is opaque.
#[verifier::ext_equal]
pub ghost struct LibraryV {
    pub modified_at: Seq<char>,
    pub root_path: Seq<char>,
    pub name: Seq<char>,
    pub acquisition_feed_id: Seq<char>,
}

impl DeepView for Library {
    type V = LibraryV;

    open spec fn deep_view(&self) -> LibraryV {
        LibraryV {
            modified_at: self.modified_at@,
            root_path: self.root_path@,
            name: self.name@,
            acquisition_feed_id: self.acquisition_feed_id@,
        }
    }
}

impl Library {
    /// Well-formedness: the root is a usable canonical path and the feed
    /// identifier is the one derived from the name.
    pub open spec fn wf(&self) -> bool {
        valid_root(self.root_path@) && self.acquisition_feed_id@ == feed_id_of(self.name@)
    }

    /// Opens one library.  `root_path` must already be canonical — the
    /// caller canonicalizes against the real filesystem — and
    /// `modified_at` carries the store file's last-modified stamp.  The
    /// metadata store `root_path/metadata.db` is opened strictly
    /// read-only; a root that is not a usable canonical path is refused
    /// outright.
    pub fn open(name: String, root_path: String, modified_at: String) -> (r: Result<
        Library,
        AppError,
    >)
        ensures
            r matches Ok(lib) ==> lib.wf() && lib.name@ == name@ && lib.root_path@ == root_path@
                && lib.modified_at@ == modified_at@ && lib.acquisition_feed_id@ == feed_id_of(
                name@,
            ),
            r matches Err(e) ==> e == AppError::BadRootPath || e == AppError::Db,
            !valid_root(root_path@) <==> r == Err::<Library, AppError>(AppError::BadRootPath),
    {
        if !is_valid_root(root_path.as_str()) {
            return Err(AppError::BadRootPath);
        }
        let mut db_path = root_path.clone();
        db_path.append("/metadata.db");
        let metadata_db = match open_read_only(db_path.as_str()) {
            Ok(c) => c,
            Err(e) => {
                return Err(AppError::Db);
            },
        };
        let acquisition_feed_id = derive_feed_id(name.as_str());
        Ok(Library { modified_at, root_path, metadata_db, name, acquisition_feed_id })
    }

    /// The stable feed identifier of the library.
    pub fn acquisition_feed_id(&self) -> (r: &str)
        ensures
            r@ == self.acquisition_feed_id@,
    {
        self.acquisition_feed_id.as_str()
    }

    /// The registered name of the library.
    pub fn name(&self) -> (r: &str)
        ensures
            r@ == self.name@,
    {
        self.name.as_str()
    }

    /// The canonical root directory of the library.
    pub fn root_path(&self) -> (r: &str)
        ensures
            r@ == self.root_path@,
    {
        self.root_path.as_str()
    }

    /// The last-modified stamp of the metadata store file.
    pub fn updated_at(&self) -> (r: &str)
        ensures
            r@ == self.modified_at@,
    {
        self.modified_at.as_str()
    }

    /// Fetches a page of books from the library.
    ///
    /// The five windowed queries of the requested sort order run on the
    /// leased connection: the four child joins bound to the page window,
    /// then the primary query with a one-row lookahead.  Whatever rows the
    /// store returned, the result is exactly the page the aggregation
    /// semantics assigns to them: at most `limit` books, each holding
    /// exactly the child rows carrying its identifier, and a next-page
    /// flag reporting whether the lookahead row existed.  Any query
    /// failure aborts the whole fetch; no partial page is returned.
    ///
    /// The five queries deliberately run without one enclosing read
    /// transaction: the store is read-only here, and a concurrent external
    /// writer could at worst skew child rows against primary rows inside
    /// one fetch — an accepted narrow window, kept for its lower overhead.
    /// The contract therefore speaks of the rows the queries returned, not
    /// of one store snapshot.
    pub fn fetch_books(&self, limit: usize, offset: usize, order_by: OrderBooksBy) -> (r: Result<
        (Vec<FullBook>, bool),
        AppError,
    >)
        requires
            1 <= limit <= 50,
            offset <= 0x7fff_ffff_ffff_ffff,
        ensures
            r matches Ok(p) ==> p.0@.len() <= limit && exists|sv: StoreV|
                #![auto]
                p.0.deep_view() == store_page(sv, limit as int, 0).0 && p.1 == store_page(
                    sv,
                    limit as int,
                    0,
                ).1,
            r matches Err(e) ==> e == AppError::Db,
    {
        let qs = order_by.as_sql_query();
        let limit_i = limit as i64;
        let offset_i = offset as i64;
        // Windowing invariant: all four child queries carry exactly the
        // primary window (limit, offset) — never the lookahead limit.
        let authors = query_authors(&self.metadata_db, qs.authors.as_str(), limit_i, offset_i)?;
        let languages = query_languages(
            &self.metadata_db,
            qs.languages.as_str(),
            limit_i,
            offset_i,
        )?;
        let tags = query_tags(&self.metadata_db, qs.tags.as_str(), limit_i, offset_i)?;
        let data_raw = query_data(&self.metadata_db, qs.data.as_str(), limit_i, offset_i)?;
        let data = normalize_formats(&data_raw);
        // The primary query alone reads one row beyond the page.
        let primary = query_books(&self.metadata_db, qs.books.as_str(), limit_i + 1, offset_i)?;
        let ghost sv = StoreV {
            books: primary.deep_view(),
            authors: authors.deep_view(),
            languages: languages.deep_view(),
            tags: tags.deep_view(),
            data: data.deep_view(),
        };
        let (page, has_next) = assemble_page(primary, authors, languages, tags, data, limit);
        proof {
            assert(page.deep_view() == store_page(sv, limit as int, 0).0 && has_next == store_page(
                sv,
                limit as int,
                0,
            ).1);
            assert(page@.len() == page.deep_view().len());
            assert(page.deep_view().len() <= limit);
        }
        Ok((page, has_next))
    }

    /// The total number of books in the library: the store's row count,
    /// clamped as [`clamped_count`] says.
    pub fn len(&self) -> (r: Result<usize, AppError>)
        ensures
            r matches Ok(m) ==> m <= 0x7fff_ffff && exists|n: int|
                #![auto]
                n >= 0 && m as int == clamped_count(n),
            r matches Err(e) ==> e == AppError::Db,
    {
        let n = count_books(&self.metadata_db)?;
        Ok(clamp_count(n))
    }

    /// Decides one content request against this library's root.  See
    /// [`resolve_content_path`].
    pub fn resolve_content(&self, real_path: &str, is_dir: bool) -> (r: Result<String, AppError>)
        ensures
            r matches Ok(p) ==> p@ == real_path@ && path_within_library(self.root_path@, real_path@)
                && !is_dir,
            r matches Err(e) ==> e == AppError::FileNotFound && !(path_within_library(
                self.root_path@,
                real_path@,
            ) && !is_dir),
    {
        resolve_content_path(self.root_path.as_str(), real_path, is_dir)
    }
}

// ---------------------------------------------------------------------------
// The registry
// ---------------------------------------------------------------------------

/// Uniqueness of library names in a registry.
pub open spec fn names_unique(s: Seq<Library>) -> bool {
    forall|i: int, j: int| 0 <= i < j < s.len() ==> s[i].name@ != s[j].name@
}

/// Handles all libraries: holds one `Library` per registered name and
/// enforces name uniqueness.
pub struct Libraries {
    pub entries: Vec<Library>,
}

impl Libraries {
    /// An empty registry.
    pub fn new() -> (r: Libraries)
        ensures
            r.entries@.len() == 0,
            names_unique(r.entries@),
    {
        Libraries { entries: Vec::new() }
    }

    /// Whether a library of this name is registered.
    pub fn contains_name(&self, name: &str) -> (r: bool)
        ensures
            r == exists|i: int|
                0 <= i < self.entries@.len() && self.entries@[i].name@ == name@,
    {
        let mut i: usize = 0;
        while i < self.entries.len()
            invariant
                i <= self.entries@.len(),
                forall|j: int| 0 <= j < i ==> self.entries@[j].name@ != name@,
            decreases self.entries@.len() - i,
        {
            if crate::utils::str_eq(self.entries[i].name.as_str(), name) {
                return true;
            }
            i += 1;
        }
        false
    }

    /// Registers one library.  Fails with `DuplicateName`, leaving the
    /// registry unchanged, exactly when the name is already taken.
    pub fn register(&mut self, lib: Library) -> (r: Result<(), AppError>)
        requires
            names_unique(old(self).entries@),
        ensures
            names_unique(final(self).entries@),
            (exists|i: int|
                0 <= i < old(self).entries@.len() && old(self).entries@[i].name@ == lib.name@)
                ==> r == Err::<(), AppError>(AppError::DuplicateName) && final(self).entries@
                == old(self).entries@,
            !(exists|i: int|
                0 <= i < old(self).entries@.len() && old(self).entries@[i].name@ == lib.name@)
                ==> r == Ok::<(), AppError>(()) && final(self).entries@ == old(
                self,
            ).entries@.push(lib),
    {
        if self.contains_name(lib.name.as_str()) {
            return Err(AppError::DuplicateName);
        }
        self.entries.push(lib);
        Ok(())
    }

    /// Looks one library up by name.
    pub fn get(&self, name: &str) -> (r: Option<&Library>)
        ensures
            match r {
                Option::Some(lib) => lib.name@ == name@ && exists|i: int|
                    0 <= i < self.entries@.len() && self.entries@[i] == *lib,
                Option::None => forall|i: int|
                    0 <= i < self.entries@.len() ==> self.entries@[i].name@ != name@,
            },
    {
        let mut i: usize = 0;
        while i < self.entries.len()
            invariant
                i <= self.entries@.len(),
                forall|j: int| 0 <= j < i ==> self.entries@[j].name@ != name@,
            decreases self.entries@.len() - i,
        {
            if crate::utils::str_eq(self.entries[i].name.as_str(), name) {
                return Some(&self.entries[i]);
            }
            i += 1;
        }
        None
    }

    /// All registered libraries, in registration order.
    pub fn get_all(&self) -> (r: &Vec<Library>)
        ensures
            r@ == self.entries@,
    {
        &self.entries
    }
}

/// The startup configuration: the listening address and the name/path
/// pairs of the libraries to serve.  The surrounding process parses its
/// command line into this shape.
pub struct Cli {
    /// The server's listening host.
    pub host: String,
    /// The server's listening port.
    pub port: u16,
    /// Whether verbose logging was requested.
    pub verbose: bool,
    /// The names of the libraries to register, in order.
    pub lib_name: Vec<String>,
    /// The root paths of the libraries to register, in the same order.
    pub lib_path: Vec<String>,
}

/// Pairs library names with their paths as given at startup.  Fails with
/// `MissingPath` exactly when one list is longer than the other.
pub fn pair_names_paths(names: &Vec<String>, paths: &Vec<String>) -> (r: Result<
    Vec<(String, String)>,
    AppError,
>)
    ensures
        names@.len() != paths@.len() <==> r == Err::<Vec<(String, String)>, AppError>(
            AppError::MissingPath,
        ),
        names@.len() == paths@.len() <==> (r matches Ok(v) && v@.len() == names@.len() && (forall|
            i: int,
        | 0 <= i < v@.len() ==> v@[i].0 == names@[i] && v@[i].1 == paths@[i])),
{
    if names.len() != paths.len() {
        return Err(AppError::MissingPath);
    }
    let mut out: Vec<(String, String)> = Vec::new();
    let mut i: usize = 0;
    while i < names.len()
        invariant
            i <= names@.len(),
            names@.len() == paths@.len(),
            out@.len() == i,
            forall|j: int| 0 <= j < i ==> out@[j].0 == names@[j] && out@[j].1 == paths@[j],
        decreases names@.len() - i,
    {
        out.push((names[i].clone(), paths[i].clone()));
        i += 1;
    }
    Ok(out)
}

} // verus!
