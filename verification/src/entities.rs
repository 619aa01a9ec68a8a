use vstd::prelude::*;

use crate::utils::dec_int_of;
use crate::utils::i64_to_string;
use crate::utils::push_tracked;

verus! {

// ---------------------------------------------------------------------------
// Row and record types
// ---------------------------------------------------------------------------

/// One fully aggregated book: the primary record of the `books` table plus
/// the ordered child collections attached to it while a page is assembled.
/// The primary query produces values of this type with empty child
/// collections; aggregation fills them in.
pub struct FullBook {
    pub id: i64,
    pub uuid: Option<String>,
    pub title: String,
    /// Raw timestamp text of the store's `timestamp` column, when present.
    pub added_at: Option<String>,
    /// Raw timestamp text of the store's `pubdate` column, when present.
    pub published_at: Option<String>,
    /// Raw timestamp text of the store's `last_modified` column.
    pub last_modified_at: String,
    /// The on-disk folder holding the book's files, relative to the library
    /// root.
    pub path: String,
    pub has_cover: bool,
    pub authors: Vec<String>,
    pub languages: Vec<String>,
    pub tags: Vec<String>,
    /// The book's comment text, when present.
    pub content: Option<String>,
    pub data: Vec<Data>,
}

/// One row of the author join: an author name and the book it belongs to.
pub struct Author {
    pub name: String,
    pub book_id: i64,
}

/// One row of the language join: a language code and the book it belongs to.
pub struct Language {
    pub lang_code: String,
    pub book_id: i64,
}

/// One row of the tag join: a tag name and the book it belongs to.
pub struct Tag {
    pub name: String,
    pub book_id: i64,
}

/// One row of the `data` table: a file belonging to a book.
pub struct Data {
    pub file_name: String,
    pub file_size: i64,
    /// The file format, lower-cased during aggregation.
    pub format: String,
    pub book_id: i64,
}

// ---------------------------------------------------------------------------
// Mathematical views
// ---------------------------------------------------------------------------

/// The mathematical view of a [`FullBook`].
#[verifier::ext_equal]
pub ghost struct FullBookV {
    pub id: int,
    pub uuid: Option<Seq<char>>,
    pub title: Seq<char>,
    pub added_at: Option<Seq<char>>,
    pub published_at: Option<Seq<char>>,
    pub last_modified_at: Seq<char>,
    pub path: Seq<char>,
    pub has_cover: bool,
    pub authors: Seq<Seq<char>>,
    pub languages: Seq<Seq<char>>,
    pub tags: Seq<Seq<char>>,
    pub content: Option<Seq<char>>,
    pub data: Seq<DataV>,
}

/// The mathematical view of an [`Author`] row.
#[verifier::ext_equal]
pub ghost struct AuthorV {
    pub name: Seq<char>,
    pub book_id: int,
}

/// The mathematical view of a [`Language`] row.
#[verifier::ext_equal]
pub ghost struct LanguageV {
    pub lang_code: Seq<char>,
    pub book_id: int,
}

/// The mathematical view of a [`Tag`] row.
#[verifier::ext_equal]
pub ghost struct TagV {
    pub name: Seq<char>,
    pub book_id: int,
}

/// The mathematical view of a [`Data`] row.
#[verifier::ext_equal]
pub ghost struct DataV {
    pub file_name: Seq<char>,
    pub file_size: int,
    pub format: Seq<char>,
    pub book_id: int,
}

impl DeepView for FullBook {
    type V = FullBookV;

    open spec fn deep_view(&self) -> FullBookV {
        FullBookV {
            id: self.id as int,
            uuid: self.uuid.deep_view(),
            title: self.title@,
            added_at: self.added_at.deep_view(),
            published_at: self.published_at.deep_view(),
            last_modified_at: self.last_modified_at@,
            path: self.path@,
            has_cover: self.has_cover,
            authors: self.authors.deep_view(),
            languages: self.languages.deep_view(),
            tags: self.tags.deep_view(),
            content: self.content.deep_view(),
            data: self.data.deep_view(),
        }
    }
}

impl DeepView for Author {
    type V = AuthorV;

    open spec fn deep_view(&self) -> AuthorV {
        AuthorV { name: self.name@, book_id: self.book_id as int }
    }
}

impl DeepView for Language {
    type V = LanguageV;

    open spec fn deep_view(&self) -> LanguageV {
        LanguageV { lang_code: self.lang_code@, book_id: self.book_id as int }
    }
}

impl DeepView for Tag {
    type V = TagV;

    open spec fn deep_view(&self) -> TagV {
        TagV { name: self.name@, book_id: self.book_id as int }
    }
}

impl DeepView for Data {
    type V = DataV;

    open spec fn deep_view(&self) -> DataV {
        DataV {
            file_name: self.file_name@,
            file_size: self.file_size as int,
            format: self.format@,
            book_id: self.book_id as int,
        }
    }
}

// ---------------------------------------------------------------------------
// Cloning helpers
// ---------------------------------------------------------------------------

/// Clones an optional string, keeping its exact value.
pub fn clone_opt_string(o: &Option<String>) -> (r: Option<String>)
    ensures
        r == *o,
{
    match o {
        Some(s) => Some(s.clone()),
        None => None,
    }
}

/// Clones a vector of strings, keeping its view.
pub fn clone_string_vec(v: &Vec<String>) -> (r: Vec<String>)
    ensures
        r.deep_view() == v.deep_view(),
{
    let mut out: Vec<String> = Vec::new();
    let mut i: usize = 0;
    while i < v.len()
        invariant
            i <= v@.len(),
            out.deep_view() =~= v.deep_view().take(i as int),
        decreases v@.len() - i,
    {
        push_tracked(&mut out, v[i].clone());
        proof {
            assert(out.deep_view() =~= v.deep_view().take(i + 1));
        }
        i += 1;
    }
    proof {
        assert(v.deep_view().take(v@.len() as int) =~= v.deep_view());
    }
    out
}

impl Author {
    /// Clones one author row, keeping its view.
    pub fn duplicate(&self) -> (r: Author)
        ensures
            r.deep_view() == self.deep_view(),
    {
        Author { name: self.name.clone(), book_id: self.book_id }
    }
}

impl Language {
    /// Clones one language row, keeping its view.
    pub fn duplicate(&self) -> (r: Language)
        ensures
            r.deep_view() == self.deep_view(),
    {
        Language { lang_code: self.lang_code.clone(), book_id: self.book_id }
    }
}

impl Tag {
    /// Clones one tag row, keeping its view.
    pub fn duplicate(&self) -> (r: Tag)
        ensures
            r.deep_view() == self.deep_view(),
    {
        Tag { name: self.name.clone(), book_id: self.book_id }
    }
}

impl Data {
    /// Clones one data row, keeping its view.
    pub fn duplicate(&self) -> (r: Data)
        ensures
            r.deep_view() == self.deep_view(),
    {
        Data {
            file_name: self.file_name.clone(),
            file_size: self.file_size,
            format: self.format.clone(),
            book_id: self.book_id,
        }
    }
}

/// Clones a vector of data rows, keeping its view.
pub fn clone_data_vec(v: &Vec<Data>) -> (r: Vec<Data>)
    ensures
        r.deep_view() == v.deep_view(),
{
    let mut out: Vec<Data> = Vec::new();
    let mut i: usize = 0;
    while i < v.len()
        invariant
            i <= v@.len(),
            out.deep_view() =~= v.deep_view().take(i as int),
        decreases v@.len() - i,
    {
        push_tracked(&mut out, v[i].duplicate());
        proof {
            assert(out.deep_view() =~= v.deep_view().take(i + 1));
        }
        i += 1;
    }
    proof {
        assert(v.deep_view().take(v@.len() as int) =~= v.deep_view());
    }
    out
}

impl FullBook {
    /// Clones one book record, keeping its view.
    pub fn duplicate(&self) -> (r: FullBook)
        ensures
            r.deep_view() == self.deep_view(),
    {
        FullBook {
            id: self.id,
            uuid: clone_opt_string(&self.uuid),
            title: self.title.clone(),
            added_at: clone_opt_string(&self.added_at),
            published_at: clone_opt_string(&self.published_at),
            last_modified_at: self.last_modified_at.clone(),
            path: self.path.clone(),
            has_cover: self.has_cover,
            authors: clone_string_vec(&self.authors),
            languages: clone_string_vec(&self.languages),
            tags: clone_string_vec(&self.tags),
            content: clone_opt_string(&self.content),
            data: clone_data_vec(&self.data),
        }
    }

    /// The stable URI of the book: its UUID when the store has one, its
    /// numeric identifier otherwise.
    pub fn uri(&self) -> (r: String)
        ensures
            r@ == uri_of(self.deep_view()),
    {
        match &self.uuid {
            Some(u) => {
                let mut s = String::from_str("urn:uuid:");
                s.append(u.as_str());
                s
            },
            None => {
                let mut s = String::from_str("urn:id:");
                let digits = i64_to_string(self.id);
                s.append(digits.as_str());
                s
            },
        }
    }
}

/// The URI a book is published under.
pub open spec fn uri_of(b: FullBookV) -> Seq<char> {
    match b.uuid {
        Some(u) => "urn:uuid:"@ + u,
        None => "urn:id:"@ + dec_int_of(b.id),
    }
}

} // verus!
