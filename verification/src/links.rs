use vstd::prelude::*;

use percent_encoding::percent_encode;
use percent_encoding::NON_ALPHANUMERIC;

use crate::entities::Data;
use crate::entities::FullBook;
use crate::library::Library;
use crate::sql::order_query_value;
use crate::sql::OrderBooksBy;
use crate::utils::dec_of;
use crate::utils::push_tracked;
use crate::utils::usize_to_string;

verus! {

/// What percent-encoding every non-alphanumeric byte makes of a string,
/// named after the characters it is a function of.
pub uninterp spec fn pct_of(s: Seq<char>) -> Seq<char>;

/// Relies on `percent_encoding::percent_encode` with `NON_ALPHANUMERIC`:
/// the encoding depends on the input bytes alone.
#[verifier::external_body]
fn enc(s: &str) -> (r: String)
    ensures
        r@ == pct_of(s@),
{
    percent_encode(s.as_bytes(), NON_ALPHANUMERIC).to_string()
}

// ---------------------------------------------------------------------------
// Link shapes
// ---------------------------------------------------------------------------

/// The root feed of one library.
pub open spec fn lib_root_link(name: Seq<char>) -> Seq<char> {
    "/opds/"@ + pct_of(name)
}

/// The exploration feed of one library, before any query string.
pub open spec fn explore_base(name: Seq<char>) -> Seq<char> {
    "/opds/"@ + pct_of(name) + "/explore"@
}

/// The query-string pairs of an exploration link, in their fixed order:
/// sort, offset, limit; absent parameters are skipped.
pub open spec fn query_pairs(
    order_by: Option<OrderBooksBy>,
    offset: Option<int>,
    limit: Option<int>,
) -> Seq<Seq<char>> {
    (match order_by {
        Option::Some(o) => seq!["sort="@ + order_query_value(o)],
        Option::None => Seq::empty(),
    }) + (match offset {
        Option::Some(n) => seq!["offset="@ + dec_of(n)],
        Option::None => Seq::empty(),
    }) + (match limit {
        Option::Some(n) => seq!["limit="@ + dec_of(n)],
        Option::None => Seq::empty(),
    })
}

/// Query-string pairs joined with `&`.
pub open spec fn join_amp(parts: Seq<Seq<char>>) -> Seq<char>
    decreases parts.len(),
{
    if parts.len() == 0 {
        Seq::empty()
    } else if parts.len() == 1 {
        parts[0]
    } else {
        join_amp(parts.drop_last()) + "&"@ + parts.last()
    }
}

/// The exploration feed of one library with explicit window parameters.
pub open spec fn explore_link(
    name: Seq<char>,
    order_by: Option<OrderBooksBy>,
    offset: Option<int>,
    limit: Option<int>,
) -> Seq<char> {
    let pairs = query_pairs(order_by, offset, limit);
    if pairs.len() == 0 {
        explore_base(name)
    } else {
        explore_base(name) + "?"@ + join_amp(pairs)
    }
}

/// The download location of one file of one book.
pub open spec fn download_link(
    name: Seq<char>,
    path: Seq<char>,
    file_name: Seq<char>,
    format: Seq<char>,
) -> Seq<char> {
    "/lib-content/"@ + pct_of(name) + "/"@ + pct_of(path) + "/"@ + pct_of(file_name) + "."@
        + pct_of(format)
}

/// The cover image location of one book.
pub open spec fn book_cover_link(name: Seq<char>, path: Seq<char>) -> Seq<char> {
    "/lib-content/"@ + pct_of(name) + "/"@ + pct_of(path) + "/cover.jpg"@
}

// ---------------------------------------------------------------------------
// Builders
// ---------------------------------------------------------------------------

/// The location of one library's root feed.
pub fn lib_root(lib: &Library) -> (r: String)
    ensures
        r@ == lib_root_link(lib.name@),
{
    let mut s = String::from_str("/opds/");
    let e = enc(lib.name.as_str());
    s.append(e.as_str());
    s
}

/// The location of one library's exploration feed, with an optional raw
/// sort parameter.
pub fn explore_lib(lib: &Library, order_by: Option<&str>) -> (r: String)
    ensures
        r@ == (match order_by {
            Option::Some(o) => explore_base(lib.name@) + "?sort="@ + o@,
            Option::None => explore_base(lib.name@),
        }),
{
    let mut s = String::from_str("/opds/");
    let e = enc(lib.name.as_str());
    s.append(e.as_str());
    s.append("/explore");
    match order_by {
        Some(o) => {
            s.append("?sort=");
            s.append(o);
            proof {
                assert(s@ =~= explore_base(lib.name@) + "?sort="@ + o@);
            }
            s
        },
        None => {
            proof {
                assert(s@ =~= explore_base(lib.name@));
            }
            s
        },
    }
}

/// Joins query-string pairs with `&`.
fn join_with_amp(parts: &Vec<String>) -> (r: String)
    ensures
        r@ == join_amp(parts.deep_view()),
{
    let mut s = String::new();
    let mut i: usize = 0;
    while i < parts.len()
        invariant
            i <= parts@.len(),
            s@ == join_amp(parts.deep_view().take(i as int)),
        decreases parts@.len() - i,
    {
        if i > 0 {
            s.append("&");
        }
        s.append(parts[i].as_str());
        proof {
            let pv = parts.deep_view();
            assert(pv.take(i + 1).drop_last() =~= pv.take(i as int));
            assert(pv.take(i + 1).last() == pv[i as int]);
            if i == 0 {
                assert(s@ =~= join_amp(pv.take(i + 1)));
            } else {
                assert(s@ =~= join_amp(pv.take(i + 1)));
            }
        }
        i += 1;
    }
    proof {
        assert(parts.deep_view().take(parts@.len() as int) =~= parts.deep_view());
    }
    s
}

/// The location of one library's exploration feed with explicit window
/// parameters, rendered in the fixed sort–offset–limit order.
pub fn explore_lib_with_query(
    order_by: Option<OrderBooksBy>,
    offset: Option<usize>,
    limit: Option<usize>,
    lib: &Library,
) -> (r: String)
    ensures
        r@ == explore_link(
            lib.name@,
            order_by,
            match offset {
                Option::Some(n) => Option::Some(n as int),
                Option::None => Option::None,
            },
            match limit {
                Option::Some(n) => Option::Some(n as int),
                Option::None => Option::None,
            },
        ),
{
    let ghost offset_i: Option<int> = match offset {
        Option::Some(n) => Option::Some(n as int),
        Option::None => Option::None,
    };
    let ghost limit_i: Option<int> = match limit {
        Option::Some(n) => Option::Some(n as int),
        Option::None => Option::None,
    };
    let mut parts: Vec<String> = Vec::new();
    match order_by {
        Some(o) => {
            let mut p = String::from_str("sort=");
            p.append(o.as_query_value());
            push_tracked(&mut parts, p);
        },
        None => {},
    }
    match offset {
        Some(n) => {
            let mut p = String::from_str("offset=");
            let d = usize_to_string(n);
            p.append(d.as_str());
            push_tracked(&mut parts, p);
        },
        None => {},
    }
    match limit {
        Some(n) => {
            let mut p = String::from_str("limit=");
            let d = usize_to_string(n);
            p.append(d.as_str());
            push_tracked(&mut parts, p);
        },
        None => {},
    }
    proof {
        assert(parts.deep_view() =~= query_pairs(order_by, offset_i, limit_i));
    }
    let mut s = String::from_str("/opds/");
    let e = enc(lib.name.as_str());
    s.append(e.as_str());
    s.append("/explore");
    proof {
        assert(s@ =~= explore_base(lib.name@));
    }
    if parts.len() == 0 {
        return s;
    }
    s.append("?");
    let q = join_with_amp(&parts);
    s.append(q.as_str());
    proof {
        assert(s@ =~= explore_base(lib.name@) + "?"@ + join_amp(
            query_pairs(order_by, offset_i, limit_i),
        ));
    }
    s
}

/// The download location of one file of one book.
pub fn download_book(lib_name: &str, book: &FullBook, data: &Data) -> (r: String)
    ensures
        r@ == download_link(lib_name@, book.path@, data.file_name@, data.format@),
{
    let mut s = String::from_str("/lib-content/");
    let e_name = enc(lib_name);
    s.append(e_name.as_str());
    s.append("/");
    let e_path = enc(book.path.as_str());
    s.append(e_path.as_str());
    s.append("/");
    let e_file = enc(data.file_name.as_str());
    s.append(e_file.as_str());
    s.append(".");
    let e_fmt = enc(data.format.as_str());
    s.append(e_fmt.as_str());
    proof {
        assert(s@ =~= download_link(lib_name@, book.path@, data.file_name@, data.format@));
    }
    s
}

/// The cover image location of one book.
pub fn book_cover(lib_name: &str, book: &FullBook) -> (r: String)
    ensures
        r@ == book_cover_link(lib_name@, book.path@),
{
    let mut s = String::from_str("/lib-content/");
    let e_name = enc(lib_name);
    s.append(e_name.as_str());
    s.append("/");
    let e_path = enc(book.path.as_str());
    s.append(e_path.as_str());
    s.append("/cover.jpg");
    proof {
        assert(s@ =~= book_cover_link(lib_name@, book.path@));
    }
    s
}

} // verus!
