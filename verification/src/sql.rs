use vstd::prelude::*;

verus! {

// ---------------------------------------------------------------------------
// Sort strategies
// ---------------------------------------------------------------------------

/// The closed set of sort orders a page of books can be requested in.
#[derive(Clone, Copy, Debug, PartialEq, Eq, Structural)]
pub enum OrderBooksBy {
    DateAdded,
    Title,
    Author,
}

/// The `ORDER BY` expression of each sort order.
pub open spec fn order_clause(o: OrderBooksBy) -> Seq<char> {
    match o {
        OrderBooksBy::DateAdded => "timestamp DESC"@,
        OrderBooksBy::Title => "sort ASC"@,
        OrderBooksBy::Author => "author_sort ASC"@,
    }
}

/// The query-string value naming each sort order.
pub open spec fn order_query_value(o: OrderBooksBy) -> Seq<char> {
    match o {
        OrderBooksBy::DateAdded => "date_added"@,
        OrderBooksBy::Title => "title"@,
        OrderBooksBy::Author => "author"@,
    }
}

/// The windowing clause shared verbatim by all five query templates of one
/// sort order.  The primary query binds the first placeholder to
/// `limit + 1` (one-row lookahead) while every child query binds it to
/// `limit`; both bind the second placeholder to `offset`.
pub open spec fn window_clause() -> Seq<char> {
    " LIMIT ?1 OFFSET ?2"@
}

/// The five query templates of one sort order.  All five embed the same
/// ordering expression and the same windowing clause, so the child queries
/// can never drift from the primary query's window.
pub struct QuerySet {
    /// Primary query: one row per book inside the window, with its comment.
    pub books: String,
    /// Author names of the books inside the window.
    pub authors: String,
    /// Language codes of the books inside the window.
    pub languages: String,
    /// Tag names of the books inside the window.
    pub tags: String,
    /// File entries of the books inside the window.
    pub data: String,
}

impl OrderBooksBy {
    /// The `ORDER BY` expression of this sort order.
    pub fn order_sql(&self) -> (r: &'static str)
        ensures
            r@ == order_clause(*self),
    {
        match self {
            OrderBooksBy::DateAdded => "timestamp DESC",
            OrderBooksBy::Title => "sort ASC",
            OrderBooksBy::Author => "author_sort ASC",
        }
    }

    /// The query-string value naming this sort order.
    pub fn as_query_value(&self) -> (r: &'static str)
        ensures
            r@ == order_query_value(*self),
    {
        match self {
            OrderBooksBy::DateAdded => "date_added",
            OrderBooksBy::Title => "title",
            OrderBooksBy::Author => "author",
        }
    }

    /// Parses the query-string value naming a sort order; the inverse of
    /// [`OrderBooksBy::as_query_value`] on the closed set.
    pub fn from_query_value(s: &str) -> (r: Option<OrderBooksBy>)
        ensures
            r == (if s@ == order_query_value(OrderBooksBy::DateAdded) {
                Some(OrderBooksBy::DateAdded)
            } else if s@ == order_query_value(OrderBooksBy::Title) {
                Some(OrderBooksBy::Title)
            } else if s@ == order_query_value(OrderBooksBy::Author) {
                Some(OrderBooksBy::Author)
            } else {
                Option::<OrderBooksBy>::None
            }),
    {
        if crate::utils::str_eq(s, "date_added") {
            Some(OrderBooksBy::DateAdded)
        } else if crate::utils::str_eq(s, "title") {
            Some(OrderBooksBy::Title)
        } else if crate::utils::str_eq(s, "author") {
            Some(OrderBooksBy::Author)
        } else {
            None
        }
    }

    /// Builds the five query templates of this sort order from one shared
    /// windowing clause.
    pub fn as_sql_query(&self) -> (r: QuerySet)
        ensures
            r.books@ == books_prefix() + order_clause(*self) + window_clause(),
            r.authors@ == authors_prefix() + order_clause(*self) + window_clause()
                + authors_suffix(),
            r.languages@ == languages_prefix() + order_clause(*self) + window_clause()
                + languages_suffix(),
            r.tags@ == tags_prefix() + order_clause(*self) + window_clause() + tags_suffix(),
            r.data@ == data_prefix() + order_clause(*self) + window_clause() + data_suffix(),
    {
        let books = windowed_query(
            "SELECT b.id AS id, b.uuid AS uuid, b.title AS title, b.timestamp AS added_at, b.pubdate AS published_at, b.has_cover AS has_cover, b.last_modified AS last_modified_at, b.path AS path, c.text AS comment FROM books AS b LEFT JOIN comments AS c ON c.book = b.id ORDER BY ",
            self,
            "",
        );
        proof {
            reveal_strlit("");
            assert(books@ =~= books_prefix() + order_clause(*self) + window_clause());
        }
        QuerySet {
            books,
            authors: windowed_query(
                "SELECT a.name AS author_name, link.book AS book_id FROM books_authors_link AS link INNER JOIN (SELECT id AS b_id FROM books ORDER BY ",
                self,
                ") ON book_id = b_id INNER JOIN authors AS a ON link.author = a.id",
            ),
            languages: windowed_query(
                "SELECT l.lang_code AS lang_code, link.book AS book_id FROM books_languages_link AS link INNER JOIN (SELECT id AS b_id FROM books ORDER BY ",
                self,
                ") ON book_id = b_id INNER JOIN languages AS l ON link.lang_code = l.id",
            ),
            tags: windowed_query(
                "SELECT link.book AS book_id, t.name AS tag_name FROM books_tags_link AS link INNER JOIN (SELECT id AS b_id FROM books ORDER BY ",
                self,
                ") ON book_id = b_id INNER JOIN tags AS t ON link.tag = t.id",
            ),
            data: windowed_query(
                "SELECT d.uncompressed_size AS file_size, d.name AS file_name, d.format AS format, d.book AS book_id FROM data AS d WHERE book_id IN (SELECT id AS b_id FROM books ORDER BY ",
                self,
                ")",
            ),
        }
    }
}

/// The fixed part of the primary template, up to its ordering expression.
pub open spec fn books_prefix() -> Seq<char> {
    "SELECT b.id AS id, b.uuid AS uuid, b.title AS title, b.timestamp AS added_at, b.pubdate AS published_at, b.has_cover AS has_cover, b.last_modified AS last_modified_at, b.path AS path, c.text AS comment FROM books AS b LEFT JOIN comments AS c ON c.book = b.id ORDER BY "@
}

/// The fixed head of the author template, up to its ordering expression.
pub open spec fn authors_prefix() -> Seq<char> {
    "SELECT a.name AS author_name, link.book AS book_id FROM books_authors_link AS link INNER JOIN (SELECT id AS b_id FROM books ORDER BY "@
}

/// The fixed tail of the author template, after its windowing clause.
pub open spec fn authors_suffix() -> Seq<char> {
    ") ON book_id = b_id INNER JOIN authors AS a ON link.author = a.id"@
}

/// The fixed head of the language template, up to its ordering expression.
pub open spec fn languages_prefix() -> Seq<char> {
    "SELECT l.lang_code AS lang_code, link.book AS book_id FROM books_languages_link AS link INNER JOIN (SELECT id AS b_id FROM books ORDER BY "@
}

/// The fixed tail of the language template, after its windowing clause.
pub open spec fn languages_suffix() -> Seq<char> {
    ") ON book_id = b_id INNER JOIN languages AS l ON link.lang_code = l.id"@
}

/// The fixed head of the tag template, up to its ordering expression.
pub open spec fn tags_prefix() -> Seq<char> {
    "SELECT link.book AS book_id, t.name AS tag_name FROM books_tags_link AS link INNER JOIN (SELECT id AS b_id FROM books ORDER BY "@
}

/// The fixed tail of the tag template, after its windowing clause.
pub open spec fn tags_suffix() -> Seq<char> {
    ") ON book_id = b_id INNER JOIN tags AS t ON link.tag = t.id"@
}

/// The fixed head of the file-entry template, up to its ordering expression.
pub open spec fn data_prefix() -> Seq<char> {
    "SELECT d.uncompressed_size AS file_size, d.name AS file_name, d.format AS format, d.book AS book_id FROM data AS d WHERE book_id IN (SELECT id AS b_id FROM books ORDER BY "@
}

/// The fixed tail of the file-entry template, after its windowing clause.
pub open spec fn data_suffix() -> Seq<char> {
    ")"@
}

/// Concatenates one template: fixed head, ordering expression, the shared
/// windowing clause, fixed tail.
fn windowed_query(prefix: &str, order_by: &OrderBooksBy, suffix: &str) -> (r: String)
    ensures
        r@ == prefix@ + order_clause(*order_by) + window_clause() + suffix@,
{
    let mut q = String::from_str(prefix);
    q.append(order_by.order_sql());
    q.append(" LIMIT ?1 OFFSET ?2");
    q.append(suffix);
    proof {
        assert(q@ =~= prefix@ + order_clause(*order_by) + window_clause() + suffix@);
    }
    q
}

} // verus!
