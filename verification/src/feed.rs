use vstd::prelude::*;

use crate::entities::uri_of;
use crate::entities::DataV;
use crate::entities::FullBook;
use crate::entities::FullBookV;
use crate::library::Libraries;
use crate::library::Library;
use crate::library::LibraryV;
use crate::links::book_cover;
use crate::links::book_cover_link;
use crate::links::download_book;
use crate::links::download_link;
use crate::links::explore_base;
use crate::links::explore_lib;
use crate::links::explore_lib_with_query;
use crate::links::explore_link;
use crate::links::lib_root;
use crate::links::lib_root_link;
use crate::sql::order_query_value;
use crate::sql::OrderBooksBy;
use crate::utils::lex_le;
use crate::utils::push_tracked;
use crate::utils::str_le;

verus! {

// ---------------------------------------------------------------------------
// Feed model
// ---------------------------------------------------------------------------

/// The Atom namespace every feed carries.
pub open spec fn xmlns_atom() -> Seq<char> {
    "http://www.w3.org/2005/Atom"@
}

/// The fixed title of every feed.
pub open spec fn feed_title() -> Seq<char> {
    "Seshat – OPDS Catalog"@
}

/// The stamp used before any library has a newer one.
pub open spec fn epoch_stamp() -> Seq<char> {
    "1970-01-01T00:00:00Z"@
}

/// The media type of a feed link.
#[derive(Clone, Copy, Debug, PartialEq, Eq, Structural)]
pub enum LinkType {
    Acquisition,
    Navigation,
}

/// The relation of a feed link.
#[derive(Clone, Copy, Debug, PartialEq, Eq, Structural)]
pub enum LinkRel {
    Acquisition,
    SortNew,
    Image,
    Start,
    First,
    Last,
    Next,
    Previous,
}

/// What kind of text a content element holds.
#[derive(Clone, Copy, Debug, PartialEq, Eq, Structural)]
pub enum ContentKind {
    Text,
    Html,
}

/// The media-type text of each link type.
pub open spec fn link_type_str(t: LinkType) -> Seq<char> {
    match t {
        LinkType::Acquisition => "application/atom+xml;profile=opds-catalog;kind=acquisition"@,
        LinkType::Navigation => "application/atom+xml;profile=opds-catalog;kind=navigation"@,
    }
}

/// The relation text of each link relation.
pub open spec fn link_rel_str(r: LinkRel) -> Seq<char> {
    match r {
        LinkRel::Acquisition => "http://opds-spec.org/acquisition"@,
        LinkRel::SortNew => "http://opds-spec.org/sort/new"@,
        LinkRel::Image => "http://opds-spec.org/image"@,
        LinkRel::Start => "start"@,
        LinkRel::First => "first"@,
        LinkRel::Last => "last"@,
        LinkRel::Next => "next"@,
        LinkRel::Previous => "previous"@,
    }
}

impl LinkType {
    /// The media-type text of this link type.
    pub fn as_str(&self) -> (r: &'static str)
        ensures
            r@ == link_type_str(*self),
    {
        match self {
            LinkType::Acquisition => "application/atom+xml;profile=opds-catalog;kind=acquisition",
            LinkType::Navigation => "application/atom+xml;profile=opds-catalog;kind=navigation",
        }
    }
}

impl LinkRel {
    /// The relation text of this link relation.
    pub fn as_str(&self) -> (r: &'static str)
        ensures
            r@ == link_rel_str(*self),
    {
        match self {
            LinkRel::Acquisition => "http://opds-spec.org/acquisition",
            LinkRel::SortNew => "http://opds-spec.org/sort/new",
            LinkRel::Image => "http://opds-spec.org/image",
            LinkRel::Start => "start",
            LinkRel::First => "first",
            LinkRel::Last => "last",
            LinkRel::Next => "next",
            LinkRel::Previous => "previous",
        }
    }
}

/// One feed link.
pub struct Link {
    pub href: String,
    pub rel: Option<String>,
    pub kind: String,
}

/// One feed author.
pub struct Author {
    pub name: String,
    pub uri: Option<String>,
}

/// One category of an entry.
pub struct Category {
    pub term: String,
}

/// The text content of an entry.
pub struct Content {
    pub kind: ContentKind,
    pub value: String,
}

/// One feed entry.
pub struct Entry {
    pub id: String,
    pub title: String,
    pub updated: String,
    pub authors: Vec<Author>,
    pub categories: Vec<Category>,
    pub content: Option<Content>,
    pub links: Vec<Link>,
}

/// One whole feed.
pub struct Feed {
    pub xmlns: String,
    pub id: String,
    pub title: String,
    pub subtitle: Option<String>,
    pub updated: String,
    pub authors: Vec<Author>,
    pub links: Vec<Link>,
    pub entries: Vec<Entry>,
}

/// The mathematical view of a [`Link`].
#[verifier::ext_equal]
pub ghost struct LinkV {
    pub href: Seq<char>,
    pub rel: Option<Seq<char>>,
    pub kind: Seq<char>,
}

/// The mathematical view of an [`Author`].
#[verifier::ext_equal]
pub ghost struct AuthorV {
    pub name: Seq<char>,
    pub uri: Option<Seq<char>>,
}

/// The mathematical view of a [`Category`].
#[verifier::ext_equal]
pub ghost struct CategoryV {
    pub term: Seq<char>,
}

/// The mathematical view of a [`Content`].
#[verifier::ext_equal]
pub ghost struct ContentV {
    pub kind: ContentKind,
    pub value: Seq<char>,
}

/// The mathematical view of an [`Entry`].
#[verifier::ext_equal]
pub ghost struct EntryV {
    pub id: Seq<char>,
    pub title: Seq<char>,
    pub updated: Seq<char>,
    pub authors: Seq<AuthorV>,
    pub categories: Seq<CategoryV>,
    pub content: Option<ContentV>,
    pub links: Seq<LinkV>,
}

/// The mathematical view of a [`Feed`].
#[verifier::ext_equal]
pub ghost struct FeedV {
    pub xmlns: Seq<char>,
    pub id: Seq<char>,
    pub title: Seq<char>,
    pub subtitle: Option<Seq<char>>,
    pub updated: Seq<char>,
    pub authors: Seq<AuthorV>,
    pub links: Seq<LinkV>,
    pub entries: Seq<EntryV>,
}

impl DeepView for Link {
    type V = LinkV;

    open spec fn deep_view(&self) -> LinkV {
        LinkV { href: self.href@, rel: self.rel.deep_view(), kind: self.kind@ }
    }
}

impl DeepView for Author {
    type V = AuthorV;

    open spec fn deep_view(&self) -> AuthorV {
        AuthorV { name: self.name@, uri: self.uri.deep_view() }
    }
}

impl DeepView for Category {
    type V = CategoryV;

    open spec fn deep_view(&self) -> CategoryV {
        CategoryV { term: self.term@ }
    }
}

impl DeepView for Content {
    type V = ContentV;

    open spec fn deep_view(&self) -> ContentV {
        ContentV { kind: self.kind, value: self.value@ }
    }
}

impl DeepView for Entry {
    type V = EntryV;

    open spec fn deep_view(&self) -> EntryV {
        EntryV {
            id: self.id@,
            title: self.title@,
            updated: self.updated@,
            authors: self.authors.deep_view(),
            categories: self.categories.deep_view(),
            content: self.content.deep_view(),
            links: self.links.deep_view(),
        }
    }
}

impl DeepView for Feed {
    type V = FeedV;

    open spec fn deep_view(&self) -> FeedV {
        FeedV {
            xmlns: self.xmlns@,
            id: self.id@,
            title: self.title@,
            subtitle: self.subtitle.deep_view(),
            updated: self.updated@,
            authors: self.authors.deep_view(),
            links: self.links.deep_view(),
            entries: self.entries.deep_view(),
        }
    }
}

/// The link every feed starts with.
pub open spec fn start_link() -> LinkV {
    LinkV {
        href: "/opds"@,
        rel: Some(link_rel_str(LinkRel::Start)),
        kind: link_type_str(LinkType::Navigation),
    }
}

impl Link {
    /// The navigation link back to the catalog root.
    pub fn start() -> (r: Link)
        ensures
            r.deep_view() == start_link(),
    {
        let r = Link {
            href: String::from_str("/opds"),
            rel: Some(String::from_str(LinkRel::Start.as_str())),
            kind: String::from_str(LinkType::Navigation.as_str()),
        };
        proof {
            assert(r.deep_view() =~= start_link());
        }
        r
    }
}

/// The fixed author stamped on every feed.
pub open spec fn feed_author() -> AuthorV {
    AuthorV { name: "Thunder04"@, uri: Some("https://github.com/thunder04"@) }
}

/// Builds the fixed feed author.
pub fn make_feed_author() -> (r: Author)
    ensures
        r.deep_view() == feed_author(),
{
    let r = Author {
        name: String::from_str("Thunder04"),
        uri: Some(String::from_str("https://github.com/thunder04")),
    };
    proof {
        assert(r.deep_view() =~= feed_author());
    }
    r
}

// ---------------------------------------------------------------------------
// Media type guessing
// ---------------------------------------------------------------------------

/// The media type guessed for a file-format extension, named after the
/// extension it is a function of; nothing guessable yields `None`.
pub uninterp spec fn mime_for_ext(ext: Seq<char>) -> Option<Seq<char>>;

/// Relies on `mime_guess::from_ext(..).first_raw()`: the guess depends on
/// the extension alone.
#[verifier::external_body]
fn guess_mime(ext: &str) -> (r: Option<&'static str>)
    ensures
        (r is Some) == (mime_for_ext(ext@) is Some),
        r matches Some(m) ==> mime_for_ext(ext@) == Some(m@),
{
    mime_guess::from_ext(ext).first_raw()
}

/// The media type used for one file format: the guess, or `*/*` when
/// nothing is guessable.
pub open spec fn mime_or_default(ext: Seq<char>) -> Seq<char> {
    match mime_for_ext(ext) {
        Some(m) => m,
        None => "*/*"@,
    }
}

/// Guesses the media type of one file format, falling back to `*/*`.
pub fn mime_for_format(ext: &str) -> (r: String)
    ensures
        r@ == mime_or_default(ext@),
{
    match guess_mime(ext) {
        Some(m) => String::from_str(m),
        None => String::from_str("*/*"),
    }
}

// ---------------------------------------------------------------------------
// One book as an entry
// ---------------------------------------------------------------------------

/// The links of one book's entry: one acquisition link per file entry, in
/// file order, then the cover image when the book has one.
pub open spec fn book_links(b: FullBookV, lib_name: Seq<char>) -> Seq<LinkV> {
    b.data.map_values(
        |d: DataV| LinkV {
            rel: Some(link_rel_str(LinkRel::Acquisition)),
            href: download_link(lib_name, b.path, d.file_name, d.format),
            kind: mime_or_default(d.format),
        },
    ) + if b.has_cover {
        seq![
            LinkV {
                rel: Some(link_rel_str(LinkRel::Image)),
                href: book_cover_link(lib_name, b.path),
                kind: "image/jpeg"@,
            },
        ]
    } else {
        Seq::empty()
    }
}

/// The entry one aggregated book renders to.
pub open spec fn book_entry(b: FullBookV, lib_name: Seq<char>) -> EntryV {
    EntryV {
        id: uri_of(b),
        title: b.title,
        updated: b.last_modified_at,
        authors: b.authors.map_values(|n: Seq<char>| AuthorV { name: n, uri: None }),
        categories: b.tags.map_values(|t: Seq<char>| CategoryV { term: t }),
        content: match b.content {
            Some(c) => Some(ContentV { kind: ContentKind::Html, value: c }),
            None => None,
        },
        links: book_links(b, lib_name),
    }
}

/// Renders one aggregated book as a feed entry.
pub fn entry_for_book(book: &FullBook, lib_name: &str) -> (r: Entry)
    ensures
        r.deep_view() == book_entry(book.deep_view(), lib_name@),
{
    let ghost bv = book.deep_view();
    let mut links: Vec<Link> = Vec::new();
    let ghost data_links = bv.data.map_values(
        |d: DataV| LinkV {
            rel: Some(link_rel_str(LinkRel::Acquisition)),
            href: download_link(lib_name@, bv.path, d.file_name, d.format),
            kind: mime_or_default(d.format),
        },
    );
    let mut j: usize = 0;
    while j < book.data.len()
        invariant
            j <= book.data@.len(),
            bv == book.deep_view(),
            data_links == bv.data.map_values(
                |d: DataV| LinkV {
                    rel: Some(link_rel_str(LinkRel::Acquisition)),
                    href: download_link(lib_name@, bv.path, d.file_name, d.format),
                    kind: mime_or_default(d.format),
                },
            ),
            links.deep_view() =~= data_links.take(j as int),
        decreases book.data@.len() - j,
    {
        let l = Link {
            rel: Some(String::from_str(LinkRel::Acquisition.as_str())),
            href: download_book(lib_name, book, &book.data[j]),
            kind: mime_for_format(book.data[j].format.as_str()),
        };
        proof {
            assert(l.deep_view() =~= data_links[j as int]);
        }
        push_tracked(&mut links, l);
        proof {
            assert(links.deep_view() =~= data_links.take(j + 1));
        }
        j += 1;
    }
    proof {
        assert(data_links.take(book.data@.len() as int) =~= data_links);
    }
    if book.has_cover {
        let l = Link {
            rel: Some(String::from_str(LinkRel::Image.as_str())),
            href: book_cover(lib_name, book),
            kind: String::from_str("image/jpeg"),
        };
        push_tracked(&mut links, l);
    }
    proof {
        assert(links.deep_view() =~= book_links(bv, lib_name@));
    }
    let mut authors: Vec<Author> = Vec::new();
    let ghost authors_spec = bv.authors.map_values(|n: Seq<char>| AuthorV { name: n, uri: None });
    let mut j: usize = 0;
    while j < book.authors.len()
        invariant
            j <= book.authors@.len(),
            bv == book.deep_view(),
            authors_spec == bv.authors.map_values(
                |n: Seq<char>| AuthorV { name: n, uri: None },
            ),
            authors.deep_view() =~= authors_spec.take(j as int),
        decreases book.authors@.len() - j,
    {
        let a = Author { name: book.authors[j].clone(), uri: None };
        proof {
            assert(a.deep_view() =~= authors_spec[j as int]);
        }
        push_tracked(&mut authors, a);
        proof {
            assert(authors.deep_view() =~= authors_spec.take(j + 1));
        }
        j += 1;
    }
    proof {
        assert(authors_spec.take(book.authors@.len() as int) =~= authors_spec);
    }
    let mut categories: Vec<Category> = Vec::new();
    let ghost cats_spec = bv.tags.map_values(|t: Seq<char>| CategoryV { term: t });
    let mut j: usize = 0;
    while j < book.tags.len()
        invariant
            j <= book.tags@.len(),
            bv == book.deep_view(),
            cats_spec == bv.tags.map_values(|t: Seq<char>| CategoryV { term: t }),
            categories.deep_view() =~= cats_spec.take(j as int),
        decreases book.tags@.len() - j,
    {
        let c = Category { term: book.tags[j].clone() };
        proof {
            assert(c.deep_view() =~= cats_spec[j as int]);
        }
        push_tracked(&mut categories, c);
        proof {
            assert(categories.deep_view() =~= cats_spec.take(j + 1));
        }
        j += 1;
    }
    proof {
        assert(cats_spec.take(book.tags@.len() as int) =~= cats_spec);
    }
    let content = match &book.content {
        Some(c) => Some(Content { kind: ContentKind::Html, value: c.clone() }),
        None => None,
    };
    let r = Entry {
        id: book.uri(),
        title: book.title.clone(),
        updated: book.last_modified_at.clone(),
        authors,
        categories,
        content,
        links,
    };
    proof {
        assert(r.deep_view() =~= book_entry(bv, lib_name@));
    }
    r
}

// ---------------------------------------------------------------------------
// The exploration feed
// ---------------------------------------------------------------------------

/// The navigation links of an exploration feed: the start and first-page
/// links always; a last-page link when the library holds more than one
/// page; a previous-page link when the window is not at the start; a
/// next-page link exactly when the fetch reported a further page.
pub open spec fn nav_links(
    lv: LibraryV,
    order_by: OrderBooksBy,
    limit: int,
    offset: int,
    lib_len: int,
    has_next: bool,
) -> Seq<LinkV> {
    seq![
        start_link(),
        LinkV {
            kind: link_type_str(LinkType::Navigation),
            rel: Some(link_rel_str(LinkRel::First)),
            href: explore_link(lv.name, Some(order_by), Some(0), Some(limit)),
        },
    ] + (if lib_len > limit {
        seq![
            LinkV {
                kind: link_type_str(LinkType::Navigation),
                rel: Some(link_rel_str(LinkRel::Last)),
                href: explore_link(lv.name, Some(order_by), Some(lib_len - limit), Some(limit)),
            },
        ]
    } else {
        Seq::empty()
    }) + (if offset > 0 {
        seq![
            LinkV {
                kind: link_type_str(LinkType::Navigation),
                rel: Some(link_rel_str(LinkRel::Previous)),
                href: explore_link(
                    lv.name,
                    Some(order_by),
                    Some(if offset >= limit { offset - limit } else { 0 }),
                    Some(limit),
                ),
            },
        ]
    } else {
        Seq::empty()
    }) + (if has_next {
        seq![
            LinkV {
                kind: link_type_str(LinkType::Navigation),
                rel: Some(link_rel_str(LinkRel::Next)),
                href: explore_link(lv.name, Some(order_by), Some(offset + limit), Some(limit)),
            },
        ]
    } else {
        Seq::empty()
    })
}

/// The whole exploration feed of one page.
pub open spec fn explore_feed_spec(
    lv: LibraryV,
    books: Seq<FullBookV>,
    has_next: bool,
    limit: int,
    offset: int,
    order_by: OrderBooksBy,
    lib_len: int,
) -> FeedV {
    FeedV {
        xmlns: xmlns_atom(),
        id: lv.acquisition_feed_id,
        title: feed_title(),
        subtitle: Some("Exploring the \""@ + lv.name + "\" library"@),
        updated: lv.modified_at,
        authors: seq![feed_author()],
        links: nav_links(lv, order_by, limit, offset, lib_len, has_next),
        entries: books.map_values(|b: FullBookV| book_entry(b, lv.name)),
    }
}

/// Renders one fetched page as an exploration feed, with its navigation
/// links derived from the window, the library size and the next-page flag.
pub fn explore_catalog_feed(
    lib: &Library,
    books: &Vec<FullBook>,
    has_next_page: bool,
    limit: usize,
    offset: usize,
    order_by: OrderBooksBy,
    lib_len: usize,
) -> (r: Feed)
    requires
        offset + limit <= usize::MAX,
    ensures
        r.deep_view() == explore_feed_spec(
            lib.deep_view(),
            books.deep_view(),
            has_next_page,
            limit as int,
            offset as int,
            order_by,
            lib_len as int,
        ),
{
    let ghost lv = lib.deep_view();
    let mut entries: Vec<Entry> = Vec::new();
    let ghost entries_spec = books.deep_view().map_values(
        |b: FullBookV| book_entry(b, lv.name),
    );
    let mut i: usize = 0;
    while i < books.len()
        invariant
            i <= books@.len(),
            lv == lib.deep_view(),
            entries_spec == books.deep_view().map_values(
                |b: FullBookV| book_entry(b, lv.name),
            ),
            entries.deep_view() =~= entries_spec.take(i as int),
        decreases books@.len() - i,
    {
        let e = entry_for_book(&books[i], lib.name.as_str());
        proof {
            assert(e.deep_view() =~= entries_spec[i as int]);
        }
        push_tracked(&mut entries, e);
        proof {
            assert(entries.deep_view() =~= entries_spec.take(i + 1));
        }
        i += 1;
    }
    proof {
        assert(entries_spec.take(books@.len() as int) =~= entries_spec);
    }
    let mut links: Vec<Link> = Vec::new();
    push_tracked(&mut links, Link::start());
    let first = Link {
        kind: String::from_str(LinkType::Navigation.as_str()),
        rel: Some(String::from_str(LinkRel::First.as_str())),
        href: explore_lib_with_query(Some(order_by), Some(0), Some(limit), lib),
    };
    push_tracked(&mut links, first);
    if lib_len > limit {
        let last = Link {
            kind: String::from_str(LinkType::Navigation.as_str()),
            rel: Some(String::from_str(LinkRel::Last.as_str())),
            href: explore_lib_with_query(Some(order_by), Some(lib_len - limit), Some(limit), lib),
        };
        push_tracked(&mut links, last);
    }
    if offset > 0 {
        let prev_offset = if offset >= limit {
            offset - limit
        } else {
            0
        };
        let previous = Link {
            kind: String::from_str(LinkType::Navigation.as_str()),
            rel: Some(String::from_str(LinkRel::Previous.as_str())),
            href: explore_lib_with_query(Some(order_by), Some(prev_offset), Some(limit), lib),
        };
        push_tracked(&mut links, previous);
    }
    if has_next_page {
        let next = Link {
            kind: String::from_str(LinkType::Navigation.as_str()),
            rel: Some(String::from_str(LinkRel::Next.as_str())),
            href: explore_lib_with_query(Some(order_by), Some(offset + limit), Some(limit), lib),
        };
        push_tracked(&mut links, next);
    }
    proof {
        assert(links.deep_view() =~= nav_links(
            lv,
            order_by,
            limit as int,
            offset as int,
            lib_len as int,
            has_next_page,
        ));
    }
    let mut subtitle = String::from_str("Exploring the \"");
    subtitle.append(lib.name.as_str());
    subtitle.append("\" library");
    let r = Feed {
        xmlns: String::from_str("http://www.w3.org/2005/Atom"),
        id: lib.acquisition_feed_id.clone(),
        title: String::from_str("Seshat – OPDS Catalog"),
        subtitle: Some(subtitle),
        updated: lib.modified_at.clone(),
        authors: vec![make_feed_author()],
        links,
        entries,
    };
    proof {
        assert(r.deep_view().authors =~= seq![feed_author()]);
        assert(r.deep_view().subtitle->0 =~= "Exploring the \""@ + lv.name + "\" library"@);
        assert(r.deep_view() =~= explore_feed_spec(
            lv,
            books.deep_view(),
            has_next_page,
            limit as int,
            offset as int,
            order_by,
            lib_len as int,
        ));
    }
    r
}

// ---------------------------------------------------------------------------
// The catalog root feed
// ---------------------------------------------------------------------------

/// The entry one library renders to in the catalog root feed.
pub open spec fn root_entry_of(lv: LibraryV) -> EntryV {
    EntryV {
        id: lv.acquisition_feed_id,
        title: lv.name,
        updated: lv.modified_at,
        authors: Seq::empty(),
        categories: Seq::empty(),
        content: Some(
            ContentV {
                kind: ContentKind::Text,
                value: "Explore the \""@ + lv.name + "\" library"@,
            },
        ),
        links: seq![
            LinkV {
                kind: link_type_str(LinkType::Acquisition),
                href: lib_root_link(lv.name),
                rel: None,
            },
        ],
    }
}

/// The newest last-modified stamp among the libraries, starting from the
/// epoch stamp.  Stamps share one fixed UTC format, so the lexicographic
/// maximum is the chronological one.
pub open spec fn latest_of(libs: Seq<LibraryV>) -> Seq<char>
    decreases libs.len(),
{
    if libs.len() == 0 {
        epoch_stamp()
    } else {
        let rest = latest_of(libs.drop_last());
        if lex_le(rest, libs.last().modified_at) {
            libs.last().modified_at
        } else {
            rest
        }
    }
}

/// The catalog root feed: one entry per registered library, stamped with
/// the newest library stamp.
pub open spec fn root_feed_spec(libs: Seq<LibraryV>) -> FeedV {
    FeedV {
        xmlns: xmlns_atom(),
        id: "urn:seshat:root"@,
        title: feed_title(),
        subtitle: Some("Explore all available libraries"@),
        updated: latest_of(libs),
        authors: seq![feed_author()],
        links: seq![start_link()],
        entries: libs.map_values(|lv: LibraryV| root_entry_of(lv)),
    }
}

/// Renders the catalog root feed over all registered libraries.
pub fn root_feed(libraries: &Libraries) -> (r: Feed)
    ensures
        r.deep_view() == root_feed_spec(libraries.entries.deep_view()),
{
    let ghost libs = libraries.entries.deep_view();
    let mut updated = String::from_str("1970-01-01T00:00:00Z");
    let mut entries: Vec<Entry> = Vec::new();
    let mut i: usize = 0;
    while i < libraries.entries.len()
        invariant
            i <= libraries.entries@.len(),
            libs == libraries.entries.deep_view(),
            updated@ == latest_of(libs.take(i as int)),
            entries.deep_view() =~= libs.take(i as int).map_values(
                |lv: LibraryV| root_entry_of(lv),
            ),
        decreases libraries.entries@.len() - i,
    {
        let lib = &libraries.entries[i];
        if str_le(updated.as_str(), lib.modified_at.as_str()) {
            updated = lib.modified_at.clone();
        }
        let mut value = String::from_str("Explore the \"");
        value.append(lib.name.as_str());
        value.append("\" library");
        let mut links: Vec<Link> = Vec::new();
        let l = Link {
            kind: String::from_str(LinkType::Acquisition.as_str()),
            href: lib_root(lib),
            rel: None,
        };
        push_tracked(&mut links, l);
        let e = Entry {
            id: lib.acquisition_feed_id.clone(),
            title: lib.name.clone(),
            updated: lib.modified_at.clone(),
            authors: Vec::new(),
            categories: Vec::new(),
            content: Some(Content { kind: ContentKind::Text, value }),
            links,
        };
        proof {
            assert(libs.take(i + 1).drop_last() =~= libs.take(i as int));
            assert(libs.take(i + 1).last() == libs[i as int]);
            assert(e.deep_view() =~= root_entry_of(libs[i as int]));
        }
        push_tracked(&mut entries, e);
        proof {
            assert(entries.deep_view() =~= libs.take(i + 1).map_values(
                |lv: LibraryV| root_entry_of(lv),
            ));
        }
        i += 1;
    }
    proof {
        assert(libs.take(libs.len() as int) =~= libs);
    }
    let mut links: Vec<Link> = Vec::new();
    push_tracked(&mut links, Link::start());
    let r = Feed {
        xmlns: String::from_str("http://www.w3.org/2005/Atom"),
        id: String::from_str("urn:seshat:root"),
        title: String::from_str("Seshat – OPDS Catalog"),
        subtitle: Some(String::from_str("Explore all available libraries")),
        updated,
        authors: vec![make_feed_author()],
        links,
        entries,
    };
    proof {
        assert(r.deep_view().authors =~= seq![feed_author()]);
        assert(r.deep_view().links =~= seq![start_link()]);
        assert(r.deep_view() =~= root_feed_spec(libs));
    }
    r
}

// ---------------------------------------------------------------------------
// The library root feed
// ---------------------------------------------------------------------------

/// One fixed navigation choice of a library's root feed.
pub struct LibraryRootEntry {
    pub title: String,
    pub description: String,
    pub sort_by: Option<OrderBooksBy>,
    pub link_rel: Option<LinkRel>,
}

/// The entry one navigation choice renders to.
pub open spec fn lib_entry_of(
    lv: LibraryV,
    title: Seq<char>,
    desc: Seq<char>,
    sort_by: Option<OrderBooksBy>,
    link_rel: Option<LinkRel>,
) -> EntryV {
    EntryV {
        id: lv.acquisition_feed_id,
        title: title,
        updated: lv.modified_at,
        authors: Seq::empty(),
        categories: Seq::empty(),
        content: Some(ContentV { kind: ContentKind::Text, value: desc }),
        links: seq![
            LinkV {
                href: match sort_by {
                    None => explore_base(lv.name),
                    Some(o) => explore_base(lv.name) + "?sort="@ + order_query_value(o),
                },
                kind: link_type_str(LinkType::Acquisition),
                rel: match link_rel {
                    Some(x) => Some(link_rel_str(x)),
                    None => None,
                },
            },
        ],
    }
}

impl LibraryRootEntry {
    /// Renders this navigation choice against one library.
    pub fn into_entry(self, lib: &Library) -> (r: Entry)
        ensures
            r.deep_view() == lib_entry_of(
                lib.deep_view(),
                self.title@,
                self.description@,
                self.sort_by,
                self.link_rel,
            ),
    {
        let sort_str: Option<&str> = match self.sort_by {
            Some(o) => Some(o.as_query_value()),
            None => None,
        };
        let rel: Option<String> = match self.link_rel {
            Some(x) => Some(String::from_str(x.as_str())),
            None => None,
        };
        let mut links: Vec<Link> = Vec::new();
        let l = Link {
            href: explore_lib(lib, sort_str),
            kind: String::from_str(LinkType::Acquisition.as_str()),
            rel,
        };
        push_tracked(&mut links, l);
        let r = Entry {
            id: lib.acquisition_feed_id.clone(),
            title: self.title,
            updated: lib.modified_at.clone(),
            authors: Vec::new(),
            categories: Vec::new(),
            content: Some(Content { kind: ContentKind::Text, value: self.description }),
            links,
        };
        proof {
            assert(r.deep_view() =~= lib_entry_of(
                lib.deep_view(),
                self.title@,
                self.description@,
                self.sort_by,
                self.link_rel,
            ));
        }
        r
    }
}

/// The root feed of one library: its four fixed navigation choices.
pub open spec fn library_root_feed_spec(lv: LibraryV) -> FeedV {
    FeedV {
        xmlns: xmlns_atom(),
        id: lv.acquisition_feed_id,
        title: feed_title(),
        subtitle: Some("Exploring the \""@ + lv.name + "\" library"@),
        updated: lv.modified_at,
        authors: seq![feed_author()],
        links: seq![start_link()],
        entries: seq![
            lib_entry_of(lv, "View Books"@, "View books"@, None, None),
            lib_entry_of(
                lv,
                "View New Books"@,
                "View new books"@,
                Some(OrderBooksBy::DateAdded),
                Some(LinkRel::SortNew),
            ),
            lib_entry_of(
                lv,
                "View Books by Title"@,
                "View books sorted by title"@,
                Some(OrderBooksBy::Title),
                None,
            ),
            lib_entry_of(
                lv,
                "View Books by Author"@,
                "View books sorted by author"@,
                Some(OrderBooksBy::Author),
                None,
            ),
        ],
    }
}

/// Renders the root feed of one library.
pub fn library_root_feed(lib: &Library) -> (r: Feed)
    ensures
        r.deep_view() == library_root_feed_spec(lib.deep_view()),
{
    let ghost lv = lib.deep_view();
    let mut entries: Vec<Entry> = Vec::new();
    let e1 = LibraryRootEntry {
        title: String::from_str("View Books"),
        description: String::from_str("View books"),
        sort_by: None,
        link_rel: None,
    }.into_entry(lib);
    push_tracked(&mut entries, e1);
    let e2 = LibraryRootEntry {
        title: String::from_str("View New Books"),
        description: String::from_str("View new books"),
        sort_by: Some(OrderBooksBy::DateAdded),
        link_rel: Some(LinkRel::SortNew),
    }.into_entry(lib);
    push_tracked(&mut entries, e2);
    let e3 = LibraryRootEntry {
        title: String::from_str("View Books by Title"),
        description: String::from_str("View books sorted by title"),
        sort_by: Some(OrderBooksBy::Title),
        link_rel: None,
    }.into_entry(lib);
    push_tracked(&mut entries, e3);
    let e4 = LibraryRootEntry {
        title: String::from_str("View Books by Author"),
        description: String::from_str("View books sorted by author"),
        sort_by: Some(OrderBooksBy::Author),
        link_rel: None,
    }.into_entry(lib);
    push_tracked(&mut entries, e4);
    let mut links: Vec<Link> = Vec::new();
    push_tracked(&mut links, Link::start());
    let mut subtitle = String::from_str("Exploring the \"");
    subtitle.append(lib.name.as_str());
    subtitle.append("\" library");
    let r = Feed {
        xmlns: String::from_str("http://www.w3.org/2005/Atom"),
        id: lib.acquisition_feed_id.clone(),
        title: String::from_str("Seshat – OPDS Catalog"),
        subtitle: Some(subtitle),
        updated: lib.modified_at.clone(),
        authors: vec![make_feed_author()],
        links,
        entries,
    };
    proof {
        assert(r.deep_view().authors =~= seq![feed_author()]);
        assert(r.deep_view().links =~= seq![start_link()]);
        assert(r.deep_view().entries =~= library_root_feed_spec(lv).entries);
        assert(r.deep_view() =~= library_root_feed_spec(lv));
    }
    r
}

} // verus!
