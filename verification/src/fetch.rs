use vstd::prelude::*;

use crate::entities::Author;
use crate::entities::AuthorV;
use crate::entities::Data;
use crate::entities::DataV;
use crate::entities::FullBook;
use crate::entities::FullBookV;
use crate::entities::Language;
use crate::entities::LanguageV;
use crate::entities::Tag;
use crate::entities::TagV;
use crate::utils::push_tracked;

verus! {

// ---------------------------------------------------------------------------
// What a page is, mathematically
// ---------------------------------------------------------------------------

/// The names of the author rows belonging to one book, in row order and
/// without deduplication.
pub open spec fn author_names_for(rows: Seq<AuthorV>, id: int) -> Seq<Seq<char>>
    decreases rows.len(),
{
    if rows.len() == 0 {
        Seq::empty()
    } else {
        let rest = author_names_for(rows.drop_last(), id);
        if rows.last().book_id == id {
            rest.push(rows.last().name)
        } else {
            rest
        }
    }
}

/// The codes of the language rows belonging to one book, in row order.
pub open spec fn language_codes_for(rows: Seq<LanguageV>, id: int) -> Seq<Seq<char>>
    decreases rows.len(),
{
    if rows.len() == 0 {
        Seq::empty()
    } else {
        let rest = language_codes_for(rows.drop_last(), id);
        if rows.last().book_id == id {
            rest.push(rows.last().lang_code)
        } else {
            rest
        }
    }
}

/// The names of the tag rows belonging to one book, in row order.
pub open spec fn tag_names_for(rows: Seq<TagV>, id: int) -> Seq<Seq<char>>
    decreases rows.len(),
{
    if rows.len() == 0 {
        Seq::empty()
    } else {
        let rest = tag_names_for(rows.drop_last(), id);
        if rows.last().book_id == id {
            rest.push(rows.last().name)
        } else {
            rest
        }
    }
}

/// The file rows belonging to one book, in row order.
pub open spec fn data_rows_for(rows: Seq<DataV>, id: int) -> Seq<DataV>
    decreases rows.len(),
{
    if rows.len() == 0 {
        Seq::empty()
    } else {
        let rest = data_rows_for(rows.drop_last(), id);
        if rows.last().book_id == id {
            rest.push(rows.last())
        } else {
            rest
        }
    }
}

/// One primary record with exactly the child rows that carry its
/// identifier attached, each collection in row order.
pub open spec fn full_book_of(
    rec: FullBookV,
    authors: Seq<AuthorV>,
    languages: Seq<LanguageV>,
    tags: Seq<TagV>,
    data: Seq<DataV>,
) -> FullBookV {
    FullBookV {
        authors: author_names_for(authors, rec.id),
        languages: language_codes_for(languages, rec.id),
        tags: tag_names_for(tags, rec.id),
        data: data_rows_for(data, rec.id),
        ..rec
    }
}

/// The mathematical view of a whole store: the books in the materialized
/// order the active sort strategy induces, and the four child tables.
#[verifier::ext_equal]
pub ghost struct StoreV {
    pub books: Seq<FullBookV>,
    pub authors: Seq<AuthorV>,
    pub languages: Seq<LanguageV>,
    pub tags: Seq<TagV>,
    pub data: Seq<DataV>,
}

/// How many books the page starting at `offset` holds: `limit`, unless the
/// store runs out first.
pub open spec fn page_len(nbooks: int, limit: int, offset: int) -> int {
    if offset >= nbooks {
        0
    } else if nbooks - offset < limit {
        nbooks - offset
    } else {
        limit
    }
}

/// The page of a store under the materialized order: exactly the books at
/// positions `[offset, offset + limit)`, each aggregated with exactly its
/// own child rows, plus the next-page flag, which holds if and only if the
/// total number of books exceeds `offset + limit`.
pub open spec fn store_page(s: StoreV, limit: int, offset: int) -> (Seq<FullBookV>, bool) {
    (
        Seq::new(
            page_len(s.books.len() as int, limit, offset) as nat,
            |i: int| full_book_of(s.books[offset + i], s.authors, s.languages, s.tags, s.data),
        ),
        s.books.len() > offset + limit,
    )
}

// ---------------------------------------------------------------------------
// Aggregation of query results
// ---------------------------------------------------------------------------

/// Collects the author names attached to one book identifier, in row order.
fn collect_author_names(rows: &Vec<Author>, id: i64) -> (r: Vec<String>)
    ensures
        r.deep_view() == author_names_for(rows.deep_view(), id as int),
{
    let mut out: Vec<String> = Vec::new();
    let mut j: usize = 0;
    while j < rows.len()
        invariant
            j <= rows@.len(),
            out.deep_view() == author_names_for(rows.deep_view().take(j as int), id as int),
        decreases rows@.len() - j,
    {
        if rows[j].book_id == id {
            push_tracked(&mut out, rows[j].name.clone());
        }
        proof {
            let rv = rows.deep_view();
            assert(rv.take(j + 1).drop_last() =~= rv.take(j as int));
            assert(rv.take(j + 1).last() == rows@[j as int].deep_view());
            assert(out.deep_view() =~= author_names_for(rv.take(j + 1), id as int));
        }
        j += 1;
    }
    proof {
        assert(rows.deep_view().take(rows@.len() as int) =~= rows.deep_view());
    }
    out
}

/// Collects the language codes attached to one book identifier, in row order.
fn collect_language_codes(rows: &Vec<Language>, id: i64) -> (r: Vec<String>)
    ensures
        r.deep_view() == language_codes_for(rows.deep_view(), id as int),
{
    let mut out: Vec<String> = Vec::new();
    let mut j: usize = 0;
    while j < rows.len()
        invariant
            j <= rows@.len(),
            out.deep_view() == language_codes_for(rows.deep_view().take(j as int), id as int),
        decreases rows@.len() - j,
    {
        if rows[j].book_id == id {
            push_tracked(&mut out, rows[j].lang_code.clone());
        }
        proof {
            let rv = rows.deep_view();
            assert(rv.take(j + 1).drop_last() =~= rv.take(j as int));
            assert(rv.take(j + 1).last() == rows@[j as int].deep_view());
            assert(out.deep_view() =~= language_codes_for(rv.take(j + 1), id as int));
        }
        j += 1;
    }
    proof {
        assert(rows.deep_view().take(rows@.len() as int) =~= rows.deep_view());
    }
    out
}

/// Collects the tag names attached to one book identifier, in row order.
fn collect_tag_names(rows: &Vec<Tag>, id: i64) -> (r: Vec<String>)
    ensures
        r.deep_view() == tag_names_for(rows.deep_view(), id as int),
{
    let mut out: Vec<String> = Vec::new();
    let mut j: usize = 0;
    while j < rows.len()
        invariant
            j <= rows@.len(),
            out.deep_view() == tag_names_for(rows.deep_view().take(j as int), id as int),
        decreases rows@.len() - j,
    {
        if rows[j].book_id == id {
            push_tracked(&mut out, rows[j].name.clone());
        }
        proof {
            let rv = rows.deep_view();
            assert(rv.take(j + 1).drop_last() =~= rv.take(j as int));
            assert(rv.take(j + 1).last() == rows@[j as int].deep_view());
            assert(out.deep_view() =~= tag_names_for(rv.take(j + 1), id as int));
        }
        j += 1;
    }
    proof {
        assert(rows.deep_view().take(rows@.len() as int) =~= rows.deep_view());
    }
    out
}

/// Collects the file rows attached to one book identifier, in row order.
fn collect_data_rows(rows: &Vec<Data>, id: i64) -> (r: Vec<Data>)
    ensures
        r.deep_view() == data_rows_for(rows.deep_view(), id as int),
{
    let mut out: Vec<Data> = Vec::new();
    let mut j: usize = 0;
    while j < rows.len()
        invariant
            j <= rows@.len(),
            out.deep_view() == data_rows_for(rows.deep_view().take(j as int), id as int),
        decreases rows@.len() - j,
    {
        if rows[j].book_id == id {
            push_tracked(&mut out, rows[j].duplicate());
        }
        proof {
            let rv = rows.deep_view();
            assert(rv.take(j + 1).drop_last() =~= rv.take(j as int));
            assert(rv.take(j + 1).last() == rows@[j as int].deep_view());
            assert(out.deep_view() =~= data_rows_for(rv.take(j + 1), id as int));
        }
        j += 1;
    }
    proof {
        assert(rows.deep_view().take(rows@.len() as int) =~= rows.deep_view());
    }
    out
}

/// Assembles one page from query results.
///
/// `primary` holds the rows of the primary query, fetched with a one-row
/// lookahead; the four row vectors hold the child query results.  Exactly
/// `limit` books are consumed — fewer if the primary result runs out — and
/// each receives exactly the child rows carrying its identifier, in row
/// order.  The next-page flag reports whether the lookahead row existed.
pub fn assemble_page(
    primary: Vec<FullBook>,
    authors: Vec<Author>,
    languages: Vec<Language>,
    tags: Vec<Tag>,
    data: Vec<Data>,
    limit: usize,
) -> (r: (Vec<FullBook>, bool))
    ensures
        ({
            let s = StoreV {
                books: primary.deep_view(),
                authors: authors.deep_view(),
                languages: languages.deep_view(),
                tags: tags.deep_view(),
                data: data.deep_view(),
            };
            r.0.deep_view() == store_page(s, limit as int, 0).0 && r.1 == store_page(
                s,
                limit as int,
                0,
            ).1
        }),
{
    let ghost s = StoreV {
        books: primary.deep_view(),
        authors: authors.deep_view(),
        languages: languages.deep_view(),
        tags: tags.deep_view(),
        data: data.deep_view(),
    };
    let n = if primary.len() < limit {
        primary.len()
    } else {
        limit
    };
    let has_next = primary.len() > limit;
    proof {
        assert(n as int == page_len(s.books.len() as int, limit as int, 0));
    }
    let mut out: Vec<FullBook> = Vec::new();
    let mut i: usize = 0;
    while i < n
        invariant
            i <= n,
            n <= primary@.len(),
            n as int == page_len(s.books.len() as int, limit as int, 0),
            s.books == primary.deep_view(),
            s.authors == authors.deep_view(),
            s.languages == languages.deep_view(),
            s.tags == tags.deep_view(),
            s.data == data.deep_view(),
            out.deep_view() =~= store_page(s, limit as int, 0).0.take(i as int),
        decreases n - i,
    {
        let id = primary[i].id;
        let authors_i = collect_author_names(&authors, id);
        let languages_i = collect_language_codes(&languages, id);
        let tags_i = collect_tag_names(&tags, id);
        let data_i = collect_data_rows(&data, id);
        let mut b = primary[i].duplicate();
        b.authors = authors_i;
        b.languages = languages_i;
        b.tags = tags_i;
        b.data = data_i;
        proof {
            assert(b.deep_view() =~= full_book_of(
                s.books[i as int],
                s.authors,
                s.languages,
                s.tags,
                s.data,
            ));
        }
        push_tracked(&mut out, b);
        proof {
            assert(out.deep_view() =~= store_page(s, limit as int, 0).0.take(i + 1));
        }
        i += 1;
    }
    proof {
        assert(store_page(s, limit as int, 0).0.take(n as int) =~= store_page(
            s,
            limit as int,
            0,
        ).0);
    }
    (out, has_next)
}

// ---------------------------------------------------------------------------
// Child-query windows
// ---------------------------------------------------------------------------

/// The book identifiers of a window, as mathematical integers.
pub open spec fn ids_of(ids: Seq<i64>) -> Seq<int> {
    ids.map_values(|x: i64| x as int)
}

/// The author rows whose book lies inside a window, in row order.  This is
/// what the author join returns when its subquery carries the same window
/// as the primary query.
pub open spec fn authors_in_window(rows: Seq<AuthorV>, ids: Seq<int>) -> Seq<AuthorV>
    decreases rows.len(),
{
    if rows.len() == 0 {
        Seq::empty()
    } else {
        let rest = authors_in_window(rows.drop_last(), ids);
        if ids.contains(rows.last().book_id) {
            rest.push(rows.last())
        } else {
            rest
        }
    }
}

/// The language rows whose book lies inside a window, in row order.
pub open spec fn languages_in_window(rows: Seq<LanguageV>, ids: Seq<int>) -> Seq<LanguageV>
    decreases rows.len(),
{
    if rows.len() == 0 {
        Seq::empty()
    } else {
        let rest = languages_in_window(rows.drop_last(), ids);
        if ids.contains(rows.last().book_id) {
            rest.push(rows.last())
        } else {
            rest
        }
    }
}

/// The tag rows whose book lies inside a window, in row order.
pub open spec fn tags_in_window(rows: Seq<TagV>, ids: Seq<int>) -> Seq<TagV>
    decreases rows.len(),
{
    if rows.len() == 0 {
        Seq::empty()
    } else {
        let rest = tags_in_window(rows.drop_last(), ids);
        if ids.contains(rows.last().book_id) {
            rest.push(rows.last())
        } else {
            rest
        }
    }
}

/// The file rows whose book lies inside a window, in row order.
pub open spec fn data_in_window(rows: Seq<DataV>, ids: Seq<int>) -> Seq<DataV>
    decreases rows.len(),
{
    if rows.len() == 0 {
        Seq::empty()
    } else {
        let rest = data_in_window(rows.drop_last(), ids);
        if ids.contains(rows.last().book_id) {
            rest.push(rows.last())
        } else {
            rest
        }
    }
}

/// Whether a window holds one book identifier.
fn contains_id(ids: &Vec<i64>, id: i64) -> (r: bool)
    ensures
        r == ids_of(ids@).contains(id as int),
{
    let mut j: usize = 0;
    while j < ids.len()
        invariant
            j <= ids@.len(),
            forall|m: int| 0 <= m < j ==> ids@[m] != id,
        decreases ids@.len() - j,
    {
        if ids[j] == id {
            proof {
                assert(ids_of(ids@)[j as int] == id as int);
            }
            return true;
        }
        j += 1;
    }
    proof {
        assert forall|m: int| 0 <= m < ids_of(ids@).len() implies ids_of(ids@)[m] != id as int by {
            assert(ids@[m] != id);
        }
    }
    false
}

/// Restricts the author rows to one window, keeping row order.
fn filter_authors(rows: &Vec<Author>, ids: &Vec<i64>) -> (r: Vec<Author>)
    ensures
        r.deep_view() == authors_in_window(rows.deep_view(), ids_of(ids@)),
{
    let mut out: Vec<Author> = Vec::new();
    let mut j: usize = 0;
    while j < rows.len()
        invariant
            j <= rows@.len(),
            out.deep_view() == authors_in_window(rows.deep_view().take(j as int), ids_of(ids@)),
        decreases rows@.len() - j,
    {
        if contains_id(ids, rows[j].book_id) {
            push_tracked(&mut out, rows[j].duplicate());
        }
        proof {
            let rv = rows.deep_view();
            assert(rv.take(j + 1).drop_last() =~= rv.take(j as int));
            assert(rv.take(j + 1).last() == rows@[j as int].deep_view());
            assert(out.deep_view() =~= authors_in_window(rv.take(j + 1), ids_of(ids@)));
        }
        j += 1;
    }
    proof {
        assert(rows.deep_view().take(rows@.len() as int) =~= rows.deep_view());
    }
    out
}

/// Restricts the language rows to one window, keeping row order.
fn filter_languages(rows: &Vec<Language>, ids: &Vec<i64>) -> (r: Vec<Language>)
    ensures
        r.deep_view() == languages_in_window(rows.deep_view(), ids_of(ids@)),
{
    let mut out: Vec<Language> = Vec::new();
    let mut j: usize = 0;
    while j < rows.len()
        invariant
            j <= rows@.len(),
            out.deep_view() == languages_in_window(rows.deep_view().take(j as int), ids_of(ids@)),
        decreases rows@.len() - j,
    {
        if contains_id(ids, rows[j].book_id) {
            push_tracked(&mut out, rows[j].duplicate());
        }
        proof {
            let rv = rows.deep_view();
            assert(rv.take(j + 1).drop_last() =~= rv.take(j as int));
            assert(rv.take(j + 1).last() == rows@[j as int].deep_view());
            assert(out.deep_view() =~= languages_in_window(rv.take(j + 1), ids_of(ids@)));
        }
        j += 1;
    }
    proof {
        assert(rows.deep_view().take(rows@.len() as int) =~= rows.deep_view());
    }
    out
}

/// Restricts the tag rows to one window, keeping row order.
fn filter_tags(rows: &Vec<Tag>, ids: &Vec<i64>) -> (r: Vec<Tag>)
    ensures
        r.deep_view() == tags_in_window(rows.deep_view(), ids_of(ids@)),
{
    let mut out: Vec<Tag> = Vec::new();
    let mut j: usize = 0;
    while j < rows.len()
        invariant
            j <= rows@.len(),
            out.deep_view() == tags_in_window(rows.deep_view().take(j as int), ids_of(ids@)),
        decreases rows@.len() - j,
    {
        if contains_id(ids, rows[j].book_id) {
            push_tracked(&mut out, rows[j].duplicate());
        }
        proof {
            let rv = rows.deep_view();
            assert(rv.take(j + 1).drop_last() =~= rv.take(j as int));
            assert(rv.take(j + 1).last() == rows@[j as int].deep_view());
            assert(out.deep_view() =~= tags_in_window(rv.take(j + 1), ids_of(ids@)));
        }
        j += 1;
    }
    proof {
        assert(rows.deep_view().take(rows@.len() as int) =~= rows.deep_view());
    }
    out
}

/// Restricts the file rows to one window, keeping row order.
fn filter_data(rows: &Vec<Data>, ids: &Vec<i64>) -> (r: Vec<Data>)
    ensures
        r.deep_view() == data_in_window(rows.deep_view(), ids_of(ids@)),
{
    let mut out: Vec<Data> = Vec::new();
    let mut j: usize = 0;
    while j < rows.len()
        invariant
            j <= rows@.len(),
            out.deep_view() == data_in_window(rows.deep_view().take(j as int), ids_of(ids@)),
        decreases rows@.len() - j,
    {
        if contains_id(ids, rows[j].book_id) {
            push_tracked(&mut out, rows[j].duplicate());
        }
        proof {
            let rv = rows.deep_view();
            assert(rv.take(j + 1).drop_last() =~= rv.take(j as int));
            assert(rv.take(j + 1).last() == rows@[j as int].deep_view());
            assert(out.deep_view() =~= data_in_window(rv.take(j + 1), ids_of(ids@)));
        }
        j += 1;
    }
    proof {
        assert(rows.deep_view().take(rows@.len() as int) =~= rows.deep_view());
    }
    out
}

// ---------------------------------------------------------------------------
// The windowing invariant
// ---------------------------------------------------------------------------

/// Restricting the author rows to a window does not change what is
/// aggregated for any book inside that window.
pub proof fn lemma_author_window(rows: Seq<AuthorV>, ids: Seq<int>, id: int)
    requires
        ids.contains(id),
    ensures
        author_names_for(authors_in_window(rows, ids), id) == author_names_for(rows, id),
    decreases rows.len(),
{
    if rows.len() > 0 {
        lemma_author_window(rows.drop_last(), ids, id);
        let w = authors_in_window(rows.drop_last(), ids);
        if ids.contains(rows.last().book_id) {
            assert(authors_in_window(rows, ids) == w.push(rows.last()));
            assert(w.push(rows.last()).drop_last() =~= w);
            assert(w.push(rows.last()).last() == rows.last());
        } else {
            assert(rows.last().book_id != id);
        }
    }
}

/// Restricting the language rows to a window does not change what is
/// aggregated for any book inside that window.
pub proof fn lemma_language_window(rows: Seq<LanguageV>, ids: Seq<int>, id: int)
    requires
        ids.contains(id),
    ensures
        language_codes_for(languages_in_window(rows, ids), id) == language_codes_for(rows, id),
    decreases rows.len(),
{
    if rows.len() > 0 {
        lemma_language_window(rows.drop_last(), ids, id);
        let w = languages_in_window(rows.drop_last(), ids);
        if ids.contains(rows.last().book_id) {
            assert(languages_in_window(rows, ids) == w.push(rows.last()));
            assert(w.push(rows.last()).drop_last() =~= w);
            assert(w.push(rows.last()).last() == rows.last());
        } else {
            assert(rows.last().book_id != id);
        }
    }
}

/// Restricting the tag rows to a window does not change what is aggregated
/// for any book inside that window.
pub proof fn lemma_tag_window(rows: Seq<TagV>, ids: Seq<int>, id: int)
    requires
        ids.contains(id),
    ensures
        tag_names_for(tags_in_window(rows, ids), id) == tag_names_for(rows, id),
    decreases rows.len(),
{
    if rows.len() > 0 {
        lemma_tag_window(rows.drop_last(), ids, id);
        let w = tags_in_window(rows.drop_last(), ids);
        if ids.contains(rows.last().book_id) {
            assert(tags_in_window(rows, ids) == w.push(rows.last()));
            assert(w.push(rows.last()).drop_last() =~= w);
            assert(w.push(rows.last()).last() == rows.last());
        } else {
            assert(rows.last().book_id != id);
        }
    }
}

/// Restricting the file rows to a window does not change what is aggregated
/// for any book inside that window.
pub proof fn lemma_data_window(rows: Seq<DataV>, ids: Seq<int>, id: int)
    requires
        ids.contains(id),
    ensures
        data_rows_for(data_in_window(rows, ids), id) == data_rows_for(rows, id),
    decreases rows.len(),
{
    if rows.len() > 0 {
        lemma_data_window(rows.drop_last(), ids, id);
        let w = data_in_window(rows.drop_last(), ids);
        if ids.contains(rows.last().book_id) {
            assert(data_in_window(rows, ids) == w.push(rows.last()));
            assert(w.push(rows.last()).drop_last() =~= w);
            assert(w.push(rows.last()).last() == rows.last());
        } else {
            assert(rows.last().book_id != id);
        }
    }
}

// ---------------------------------------------------------------------------
// The reference engine over an in-memory store
// ---------------------------------------------------------------------------

/// A whole metadata store held in memory: the books in the materialized
/// order the active sort strategy induces, and the four child tables.  It
/// serves as the reference semantics of a fetch and backs the tests.
pub struct BookStore {
    pub books: Vec<FullBook>,
    pub authors: Vec<Author>,
    pub languages: Vec<Language>,
    pub tags: Vec<Tag>,
    pub data: Vec<Data>,
}

impl DeepView for BookStore {
    type V = StoreV;

    open spec fn deep_view(&self) -> StoreV {
        StoreV {
            books: self.books.deep_view(),
            authors: self.authors.deep_view(),
            languages: self.languages.deep_view(),
            tags: self.tags.deep_view(),
            data: self.data.deep_view(),
        }
    }
}

impl BookStore {
    /// Fetches one page exactly as the windowed queries do: the primary
    /// window is read with a one-row lookahead, each child table is
    /// restricted to the window without the lookahead row, and the page is
    /// assembled from those results.  The result is exactly the books at
    /// positions `[offset, offset + limit)` of the materialized order, each
    /// aggregated with exactly its own child rows, and the next-page flag
    /// holds if and only if the store holds more than `offset + limit`
    /// books.
    pub fn fetch_books(&self, limit: usize, offset: usize) -> (r: (Vec<FullBook>, bool))
        requires
            1 <= limit,
        ensures
            r.0.deep_view() == store_page(self.deep_view(), limit as int, offset as int).0,
            r.1 == store_page(self.deep_view(), limit as int, offset as int).1,
    {
        let ghost s = self.deep_view();
        let nbooks = self.books.len();
        let start = if offset < nbooks {
            offset
        } else {
            nbooks
        };
        let avail = nbooks - start;
        // One-row lookahead for the primary window only.
        let look = if avail > limit {
            limit + 1
        } else {
            avail
        };
        let window = if avail > limit {
            limit
        } else {
            avail
        };
        let mut primary: Vec<FullBook> = Vec::new();
        let mut k: usize = 0;
        while k < look
            invariant
                k <= look,
                start + look <= nbooks,
                nbooks == self.books@.len(),
                s == self.deep_view(),
                primary.deep_view() =~= s.books.subrange(start as int, start + k),
            decreases look - k,
        {
            push_tracked(&mut primary, self.books[start + k].duplicate());
            proof {
                assert(primary.deep_view() =~= s.books.subrange(start as int, start + k + 1));
            }
            k += 1;
        }
        // The child windows carry the window parameters of the primary
        // query without the lookahead: the windowing invariant.
        let mut ids: Vec<i64> = Vec::new();
        let mut k: usize = 0;
        while k < window
            invariant
                k <= window,
                start + window <= nbooks,
                nbooks == self.books@.len(),
                s == self.deep_view(),
                ids@.len() == k,
                forall|m: int| 0 <= m < k ==> ids_of(ids@)[m] == s.books[start + m].id,
            decreases window - k,
        {
            let ghost prevec = ids@;
            ids.push(self.books[start + k].id);
            proof {
                assert(ids@ == prevec.push(self.books@[start + k].id));
                assert forall|m: int| 0 <= m < k + 1 implies ids_of(ids@)[m] == s.books[start
                    + m].id by {
                    if m < k {
                        assert(ids@[m] == prevec[m]);
                        assert(ids_of(prevec)[m] == s.books[start + m].id);
                    } else {
                        assert(ids@[m] == self.books@[start + k].id);
                    }
                }
            }
            k += 1;
        }
        let authors_w = filter_authors(&self.authors, &ids);
        let languages_w = filter_languages(&self.languages, &ids);
        let tags_w = filter_tags(&self.tags, &ids);
        let data_w = filter_data(&self.data, &ids);
        let (page, has_next) = assemble_page(primary, authors_w, languages_w, tags_w, data_w, limit);
        proof {
            let sw = StoreV {
                books: s.books.subrange(start as int, start + look),
                authors: authors_in_window(s.authors, ids_of(ids@)),
                languages: languages_in_window(s.languages, ids_of(ids@)),
                tags: tags_in_window(s.tags, ids_of(ids@)),
                data: data_in_window(s.data, ids_of(ids@)),
            };
            let n = page_len(look as int, limit as int, 0);
            assert(n == page_len(nbooks as int, limit as int, offset as int));
            assert forall|i: int| 0 <= i < n implies store_page(sw, limit as int, 0).0[i]
                == store_page(s, limit as int, offset as int).0[i] by {
                let rec = s.books[offset + i];
                assert(sw.books[i] == rec);
                assert(ids_of(ids@)[i] == rec.id);
                assert(ids_of(ids@).contains(rec.id));
                lemma_author_window(s.authors, ids_of(ids@), rec.id);
                lemma_language_window(s.languages, ids_of(ids@), rec.id);
                lemma_tag_window(s.tags, ids_of(ids@), rec.id);
                lemma_data_window(s.data, ids_of(ids@), rec.id);
                assert(full_book_of(rec, sw.authors, sw.languages, sw.tags, sw.data) =~=
                    full_book_of(rec, s.authors, s.languages, s.tags, s.data));
            }
            assert(store_page(sw, limit as int, 0).0 =~= store_page(
                s,
                limit as int,
                offset as int,
            ).0);
            assert(has_next == store_page(s, limit as int, offset as int).1);
        }
        (page, has_next)
    }
}

// ---------------------------------------------------------------------------
// Idempotence
// ---------------------------------------------------------------------------

/// Idempotence of a fetch: the page and the next-page flag are a function
/// of the store and the window parameters alone, so two fetches with
/// identical parameters against an unchanged store yield identical ordered
/// results and identical flags.
pub proof fn lemma_fetch_idempotent(
    s: StoreV,
    limit: int,
    offset: int,
    r1: (Seq<FullBookV>, bool),
    r2: (Seq<FullBookV>, bool),
)
    requires
        r1 == store_page(s, limit, offset),
        r2 == store_page(s, limit, offset),
    ensures
        r1 == r2,
{
}

} // verus!
