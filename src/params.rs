//! Page, filter and sort parameters given as `key/value` pairs of path segments.

use vstd::prelude::*;
use crate::error::{ApiError, Malformed};
use crate::path::{segment_is, views};
use vstd::string::StrSliceExecFns;

verus! {

/// The number of rows in one page of a listing.
pub const PAGE_SIZE: u32 = 40;

/// What a page request asks for.
pub struct PageQuery {
    pub page: u32,
    pub filter: Option<Seq<char>>,
    pub sort: Option<Seq<char>>,
}

/// A parsed page request: a 1-based page number, and the filter and sort
/// expressions as given, to be interpreted by the data access layer.
#[derive(Clone, Debug, PartialEq, Eq)]
pub struct PageRequest {
    pub page: u32,
    pub filter: Option<String>,
    pub sort: Option<String>,
}

pub open spec fn opt_view(o: Option<String>) -> Option<Seq<char>> {
    match o {
        Some(s) => Some(s@),
        None => None,
    }
}

impl View for PageRequest {
    type V = PageQuery;

    open spec fn view(&self) -> PageQuery {
        PageQuery { page: self.page, filter: opt_view(self.filter), sort: opt_view(self.sort) }
    }
}

/// The request when nothing is given: the first page, no filter, no sort.
pub open spec fn default_query() -> PageQuery {
    PageQuery { page: 1, filter: None, sort: None }
}

pub open spec fn is_digit(c: char) -> bool {
    '0' <= c && c <= '9'
}

pub open spec fn digit_value(c: char) -> int {
    (c as int) - ('0' as int)
}

pub open spec fn all_digits(s: Seq<char>) -> bool {
    forall|i: int| 0 <= i < s.len() ==> is_digit(#[trigger] s[i])
}

/// The number that a string of decimal digits denotes.
pub open spec fn decimal_value(s: Seq<char>) -> int
    decreases s.len(),
{
    if s.len() == 0 {
        0
    } else {
        decimal_value(s.drop_last()) * 10 + digit_value(s.last())
    }
}

/// A page number: one or more decimal digits, at least 1, at most `u32::MAX`.
pub open spec fn page_number_of(s: Seq<char>) -> Option<u32> {
    if s.len() > 0 && all_digits(s) && 1 <= decimal_value(s) <= u32::MAX {
        Some(decimal_value(s) as u32)
    } else {
        None
    }
}

/// The request after one `key/value` pair; keys other than
/// `page`, `filter` and `sort` leave it as it is.
pub open spec fn apply_param(q: PageQuery, key: Seq<char>, value: Seq<char>) -> Result<
    PageQuery,
    ApiError,
> {
    if key == "page"@ {
        match page_number_of(value) {
            Some(p) => Ok(PageQuery { page: p, ..q }),
            None => Err(ApiError::MalformedRequest(Malformed::InvalidPageNumber)),
        }
    } else if key == "filter"@ {
        Ok(PageQuery { filter: Some(value), ..q })
    } else if key == "sort"@ {
        Ok(PageQuery { sort: Some(value), ..q })
    } else {
        Ok(q)
    }
}

/// The request after the pairs of `segs`, applied left to right.
pub open spec fn apply_params(q: PageQuery, segs: Seq<Seq<char>>) -> Result<PageQuery, ApiError>
    decreases segs.len(),
{
    if segs.len() == 0 {
        Ok(q)
    } else if segs.len() == 1 {
        Err(ApiError::MalformedRequest(Malformed::UnpairedParameter))
    } else {
        match apply_param(q, segs[0], segs[1]) {
            Ok(next) => apply_params(next, segs.subrange(2, segs.len() as int)),
            Err(e) => Err(e),
        }
    }
}

/// The page request that the segments `segs` describe.
pub open spec fn page_query_of(segs: Seq<Seq<char>>) -> Result<PageQuery, ApiError> {
    apply_params(default_query(), segs)
}

/// Reads a page number: decimal digits only, at least 1, at most `u32::MAX`.
pub fn parse_page_number(s: &String) -> (r: Option<u32>)
    ensures
        r == page_number_of(s@),
{
    let t = s.as_str();
    let n = t.unicode_len();
    if n == 0 {
        return None;
    }
    let cap: u64 = 4294967296;
    let mut acc: u64 = 0;
    let mut i: usize = 0;
    while i < n
        invariant
            n == s@.len(),
            t@ == s@,
            0 <= i <= n,
            all_digits(s@.subrange(0, i as int)),
            acc == (if decimal_value(s@.subrange(0, i as int)) >= cap {
                cap as int
            } else {
                decimal_value(s@.subrange(0, i as int))
            }),
            decimal_value(s@.subrange(0, i as int)) >= 0,
            acc <= cap,
            cap == 4294967296,
        decreases n - i,
    {
        let c = t.get_char(i);
        if !('0' <= c && c <= '9') {
            assert(!all_digits(s@));
            return None;
        }
        let d = (c as u64) - ('0' as u64);
        let ghost prev = s@.subrange(0, i as int);
        let ghost next = s@.subrange(0, i + 1);
        assert(next.drop_last() =~= prev);
        assert(next.last() == c);
        if acc < cap {
            assert(acc * 10 <= 42949672960) by (nonlinear_arith)
                requires
                    acc <= 4294967296,
            ;
            assert(d <= 9);
            acc = acc * 10 + d;
            if acc > cap {
                acc = cap;
            }
        }
        i = i + 1;
        assert forall|j: int| 0 <= j < i implies is_digit(#[trigger] s@.subrange(0, i as int)[j]) by {
            if j < i - 1 {
                assert(s@.subrange(0, i as int)[j] == prev[j]);
            }
        }
    }
    assert(s@.subrange(0, n as int) =~= s@);
    if acc == 0 || acc >= cap {
        None
    } else {
        Some(acc as u32)
    }
}

/// Reads the page parameters that follow position `start` in `segs`,
/// consumed as consecutive `key/value` pairs; a later pair overrides an
/// earlier one with the same key.
pub fn parse_page_request(segs: &Vec<String>, start: usize) -> (r: Result<PageRequest, ApiError>)
    requires
        start <= segs@.len(),
    ensures
        match r {
            Ok(q) => page_query_of(views(segs@).subrange(start as int, segs@.len() as int))
                == Ok::<PageQuery, ApiError>(q@),
            Err(e) => page_query_of(views(segs@).subrange(start as int, segs@.len() as int))
                == Err::<PageQuery, ApiError>(e),
        },
{
    let ghost all = views(segs@).subrange(start as int, segs@.len() as int);
    let n = segs.len();
    let mut q = PageRequest { page: 1, filter: None, sort: None };
    let mut i: usize = start;
    while i < n
        invariant
            n == segs@.len(),
            start <= i <= n,
            all == views(segs@).subrange(start as int, n as int),
            apply_params(q@, views(segs@).subrange(i as int, n as int)) == page_query_of(all),
        decreases n - i,
    {
        let ghost rest = views(segs@).subrange(i as int, n as int);
        if i + 1 == n {
            return Err(ApiError::MalformedRequest(Malformed::UnpairedParameter));
        }
        assert(rest[0] == segs@[i as int]@);
        assert(rest[1] == segs@[i + 1]@);
        assert(rest.subrange(2, rest.len() as int) =~= views(segs@).subrange(i + 2, n as int));
        let key = &segs[i];
        let value = &segs[i + 1];
        proof {
            reveal_strlit("page");
            reveal_strlit("filter");
            reveal_strlit("sort");
        }
        if segment_is(key, "page") {
            match parse_page_number(value) {
                Some(p) => {
                    q.page = p;
                },
                None => {
                    return Err(ApiError::MalformedRequest(Malformed::InvalidPageNumber));
                },
            }
        } else if segment_is(key, "filter") {
            q.filter = Some(value.clone());
        } else if segment_is(key, "sort") {
            q.sort = Some(value.clone());
        }
        i = i + 2;
    }
    assert(views(segs@).subrange(n as int, n as int) =~= Seq::<Seq<char>>::empty());
    Ok(q)
}

/// Applies two pairs in turn.
pub open spec fn apply_two(
    q: PageQuery,
    k1: Seq<char>,
    v1: Seq<char>,
    k2: Seq<char>,
    v2: Seq<char>,
) -> Result<PageQuery, ApiError> {
    match apply_param(q, k1, v1) {
        Ok(a) => apply_param(a, k2, v2),
        Err(e) => Err(e),
    }
}

proof fn lemma_apply_two_commute(
    q: PageQuery,
    k1: Seq<char>,
    v1: Seq<char>,
    k2: Seq<char>,
    v2: Seq<char>,
)
    requires
        k1 != k2,
    ensures
        apply_two(q, k1, v1, k2, v2) == apply_two(q, k2, v2, k1, v1),
{
}

proof fn lemma_swap_at_front(
    q: PageQuery,
    k1: Seq<char>,
    v1: Seq<char>,
    k2: Seq<char>,
    v2: Seq<char>,
    suffix: Seq<Seq<char>>,
)
    requires
        k1 != k2,
    ensures
        apply_params(q, seq![k1, v1, k2, v2] + suffix) == apply_params(
            q,
            seq![k2, v2, k1, v1] + suffix,
        ),
{
    let a = seq![k1, v1, k2, v2] + suffix;
    let b = seq![k2, v2, k1, v1] + suffix;
    assert(a.subrange(2, a.len() as int) =~= seq![k2, v2] + suffix);
    assert(b.subrange(2, b.len() as int) =~= seq![k1, v1] + suffix);
    let a2 = seq![k2, v2] + suffix;
    let b2 = seq![k1, v1] + suffix;
    assert(a2.subrange(2, a2.len() as int) =~= suffix);
    assert(b2.subrange(2, b2.len() as int) =~= suffix);
    assert(a[0] == k1 && a[1] == v1 && a2[0] == k2 && a2[1] == v2);
    assert(b[0] == k2 && b[1] == v2 && b2[0] == k1 && b2[1] == v1);
    lemma_apply_two_commute(q, k1, v1, k2, v2);
    match apply_param(q, k1, v1) {
        Ok(q1) => {
            assert(apply_params(q, a) == apply_params(q1, a2));
        },
        Err(_) => {},
    }
    match apply_param(q, k2, v2) {
        Ok(q2) => {
            assert(apply_params(q, b) == apply_params(q2, b2));
        },
        Err(_) => {},
    }
}

proof fn lemma_swap_after(
    q: PageQuery,
    prefix: Seq<Seq<char>>,
    k1: Seq<char>,
    v1: Seq<char>,
    k2: Seq<char>,
    v2: Seq<char>,
    suffix: Seq<Seq<char>>,
)
    requires
        prefix.len() % 2 == 0,
        k1 != k2,
    ensures
        apply_params(q, prefix + seq![k1, v1, k2, v2] + suffix) == apply_params(
            q,
            prefix + seq![k2, v2, k1, v1] + suffix,
        ),
    decreases prefix.len(),
{
    if prefix.len() == 0 {
        assert(prefix + seq![k1, v1, k2, v2] + suffix =~= seq![k1, v1, k2, v2] + suffix);
        assert(prefix + seq![k2, v2, k1, v1] + suffix =~= seq![k2, v2, k1, v1] + suffix);
        lemma_swap_at_front(q, k1, v1, k2, v2, suffix);
    } else {
        let a = prefix + seq![k1, v1, k2, v2] + suffix;
        let b = prefix + seq![k2, v2, k1, v1] + suffix;
        let rest = prefix.subrange(2, prefix.len() as int);
        assert(a.subrange(2, a.len() as int) =~= rest + seq![k1, v1, k2, v2] + suffix);
        assert(b.subrange(2, b.len() as int) =~= rest + seq![k2, v2, k1, v1] + suffix);
        assert(a[0] == prefix[0] && a[1] == prefix[1]);
        assert(b[0] == prefix[0] && b[1] == prefix[1]);
        match apply_param(q, prefix[0], prefix[1]) {
            Ok(next) => {
                lemma_swap_after(next, rest, k1, v1, k2, v2, suffix);
            },
            Err(_) => {},
        }
    }
}

/// The order of the pairs does not matter where their keys differ: two
/// adjacent pairs with different keys may trade places, anywhere in the list,
/// and the page request (or the error) stays the same.
pub proof fn lemma_page_query_pair_order(
    prefix: Seq<Seq<char>>,
    k1: Seq<char>,
    v1: Seq<char>,
    k2: Seq<char>,
    v2: Seq<char>,
    suffix: Seq<Seq<char>>,
)
    requires
        prefix.len() % 2 == 0,
        k1 != k2,
    ensures
        page_query_of(prefix + seq![k1, v1, k2, v2] + suffix) == page_query_of(
            prefix + seq![k2, v2, k1, v1] + suffix,
        ),
{
    lemma_swap_after(default_query(), prefix, k1, v1, k2, v2, suffix);
}

} // verus!
