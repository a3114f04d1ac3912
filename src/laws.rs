//! Laws of the gateway as a whole: what a request for a path of a given
//! shape asks of the data access layer.

use vstd::prelude::*;
use crate::error::ApiError;
use crate::handler::{json_well_formed, serve_of, ActionView};
use crate::opt::{decimal_text, lemma_decimal_text};
use crate::params::{
    apply_param, apply_params, default_query, page_number_of, page_query_of, PageQuery, PAGE_SIZE,
};
use crate::path::{are_path_segments, is_plain_segment, join_path, lemma_segments_of_join};
use crate::window::{first_match, lemma_first_match_iff, Registry};

verus! {

/// The keywords' lengths and first letters, which tell them apart.
proof fn lemma_keywords()
    ensures
        "static"@.len() == 6,
        "static"@[0] == 's',
        "static"@[1] == 't',
        is_plain_segment("static"@),
        "windows"@.len() == 7,
        "windows"@[0] == 'w',
        "windows"@[1] == 'i',
        is_plain_segment("windows"@),
        "window"@.len() == 6,
        "window"@[0] == 'w',
        "window"@[1] == 'i',
        is_plain_segment("window"@),
        "data"@.len() == 4,
        "data"@[0] == 'd',
        "data"@[1] == 'a',
        is_plain_segment("data"@),
        "select"@.len() == 6,
        "select"@[0] == 's',
        "select"@[1] == 'e',
        is_plain_segment("select"@),
        "has_many_select"@.len() == 15,
        "has_many_select"@[0] == 'h',
        "has_many_select"@[1] == 'a',
        is_plain_segment("has_many_select"@),
        "indirect_select"@.len() == 15,
        "indirect_select"@[0] == 'i',
        "indirect_select"@[1] == 'n',
        is_plain_segment("indirect_select"@),
        "lookup"@.len() == 6,
        "lookup"@[0] == 'l',
        "lookup"@[1] == 'o',
        is_plain_segment("lookup"@),
        "lookup_all"@.len() == 10,
        "lookup_all"@[0] == 'l',
        "lookup_all"@[1] == 'o',
        is_plain_segment("lookup_all"@),
        "test"@.len() == 4,
        "test"@[0] == 't',
        "test"@[1] == 'e',
        is_plain_segment("test"@),
        "db_url"@.len() == 6,
        "db_url"@[0] == 'd',
        "db_url"@[1] == 'b',
        is_plain_segment("db_url"@),
        "delete"@.len() == 6,
        "delete"@[0] == 'd',
        "delete"@[1] == 'e',
        is_plain_segment("delete"@),
        "tab_changeset"@.len() == 13,
        "tab_changeset"@[0] == 't',
        "tab_changeset"@[1] == 'a',
        is_plain_segment("tab_changeset"@),
{
    reveal_strlit("static");
    reveal_strlit("windows");
    reveal_strlit("window");
    reveal_strlit("data");
    reveal_strlit("select");
    reveal_strlit("has_many_select");
    reveal_strlit("indirect_select");
    reveal_strlit("lookup");
    reveal_strlit("lookup_all");
    reveal_strlit("test");
    reveal_strlit("db_url");
    reveal_strlit("delete");
    reveal_strlit("tab_changeset");
}
/// `window/T` yields the descriptor of the window whose main table is `T`
/// where there is one, and not found where there is none.
pub proof fn lemma_window_lookup(reg: Registry, table: Seq<char>, db_url: Option<Seq<char>>, body: Seq<u8>)
    requires
        table.len() > 0,
        is_plain_segment(table),
    ensures
        reg.window_names().contains(table) ==> (serve_of(
            reg,
            join_path(seq!["window"@, table]),
            db_url,
            body,
        ) matches Ok(ActionView::ShowWindow { window }) && reg.windows@[window as int].name()
            == table),
        !reg.window_names().contains(table) ==> serve_of(
            reg,
            join_path(seq!["window"@, table]),
            db_url,
            body,
        ) == Err::<ActionView, ApiError>(ApiError::NotFound),
{
    lemma_keywords();
    let segs = seq!["window"@, table];
    lemma_segments_of_join(segs);
    lemma_first_match_iff(reg.window_names(), table);
    if reg.window_names().contains(table) {
        let w = reg.window_index(table)->0;
        assert(reg.windows.len() == reg.windows@.len());
    }
}

/// `data/T/page/<p>` for a page `p` of at least 1 asks for page `p` of the
/// main table of `T`'s window, unfiltered and unsorted, at most `PAGE_SIZE`
/// rows of it; an unknown `T` is not found.
pub proof fn lemma_listing_page(
    reg: Registry,
    table: Seq<char>,
    page: u32,
    db_url: Option<Seq<char>>,
    body: Seq<u8>,
)
    requires
        table.len() > 0,
        is_plain_segment(table),
        page >= 1,
    ensures
        reg.window_names().contains(table) ==> (serve_of(
            reg,
            join_path(seq!["data"@, table, "page"@, decimal_text(page as nat)]),
            db_url,
            body,
        ) matches Ok(ActionView::ListMain { window, page: q, page_size }) && reg.windows@[window as int].name()
            == table && q == PageQuery { page, filter: None, sort: None } && page_size
            == PAGE_SIZE),
        !reg.window_names().contains(table) ==> serve_of(
            reg,
            join_path(seq!["data"@, table, "page"@, decimal_text(page as nat)]),
            db_url,
            body,
        ) == Err::<ActionView, ApiError>(ApiError::NotFound),
{
    lemma_keywords();
    reveal_strlit("page");
    lemma_decimal_text(page as nat);
    let digits = decimal_text(page as nat);
    let segs = seq!["data"@, table, "page"@, digits];
    assert(is_plain_segment("page"@));
    assert(segs.last() == digits);
    lemma_segments_of_join(segs);
    let rest = segs.subrange(2, 4);
    assert(rest =~= seq!["page"@, digits]);
    assert(rest.subrange(2, 2) =~= Seq::<Seq<char>>::empty());
    assert(page_number_of(digits) == Some(page));
    let q = PageQuery { page, filter: None, sort: None };
    assert(rest[0] == "page"@ && rest[1] == digits);
    assert(apply_param(default_query(), rest[0], rest[1]) == Ok::<PageQuery, ApiError>(q));
    assert(apply_params(q, rest.subrange(2, 2)) == Ok::<PageQuery, ApiError>(q));
    assert(page_query_of(rest) == Ok::<PageQuery, ApiError>(
        PageQuery { page, filter: None, sort: None },
    ));
    lemma_first_match_iff(reg.window_names(), table);
    assert(reg.windows.len() == reg.windows@.len());
}

/// `data/T/...` and `lookup/T/<n>` for a table without a window are not
/// found, whatever page parameters or page number follow.
pub proof fn lemma_listing_unknown_table(
    reg: Registry,
    table: Seq<char>,
    rest: Seq<Seq<char>>,
    page: Seq<char>,
    db_url: Option<Seq<char>>,
    body: Seq<u8>,
)
    requires
        are_path_segments(seq!["data"@, table] + rest),
        are_path_segments(seq!["lookup"@, table, page]),
        !reg.window_names().contains(table),
    ensures
        serve_of(reg, join_path(seq!["data"@, table] + rest), db_url, body) == Err::<
            ActionView,
            ApiError,
        >(ApiError::NotFound),
        serve_of(reg, join_path(seq!["lookup"@, table, page]), db_url, body) == Err::<
            ActionView,
            ApiError,
        >(ApiError::NotFound),
{
    lemma_keywords();
    let segs = seq!["data"@, table] + rest;
    lemma_segments_of_join(segs);
    assert(segs[0] == "data"@ && segs[1] == table);
    lemma_segments_of_join(seq!["lookup"@, table, page]);
    lemma_first_match_iff(reg.window_names(), table);
}

/// `has_many_select/T/id/C/...` is not found unless `C` is a has-many tab
/// of `T`'s window, whatever other tabs the window has and whatever page
/// parameters follow; where it is one, the page parameters are read, and
/// the child rows of that tab are listed, scoped to the record `id`.
pub proof fn lemma_has_many_select(
    reg: Registry,
    table: Seq<char>,
    record_id: Seq<char>,
    child: Seq<char>,
    rest: Seq<Seq<char>>,
    db_url: Option<Seq<char>>,
    body: Seq<u8>,
)
    requires
        are_path_segments(seq!["has_many_select"@, table, record_id, child] + rest),
    ensures
        ({
            let r = serve_of(
                reg,
                join_path(seq!["has_many_select"@, table, record_id, child] + rest),
                db_url,
                body,
            );
            &&& (reg.window_index(table) is None || first_match(
                reg.windows@[reg.window_index(table)->0].has_many_names(),
                child,
            ) is None) ==> r == Err::<ActionView, ApiError>(ApiError::NotFound)
            &&& (reg.window_index(table) is Some && first_match(
                reg.windows@[reg.window_index(table)->0].has_many_names(),
                child,
            ) is Some && page_query_of(rest) is Err) ==> r == Err::<ActionView, ApiError>(
                page_query_of(rest)->Err_0,
            )
            &&& (reg.window_index(table) is Some && first_match(
                reg.windows@[reg.window_index(table)->0].has_many_names(),
                child,
            ) is Some && page_query_of(rest) is Ok) ==> (r matches Ok(
                ActionView::ListHasMany { window, record_id: id, tab, page, page_size },
            ) && reg.windows@[window as int].name() == table
                && reg.windows@[window as int].has_many_names()[tab as int] == child && id
                == record_id && Ok::<PageQuery, ApiError>(page) == page_query_of(rest)
                && page_size == PAGE_SIZE)
        }),
{
    lemma_keywords();
    let segs = seq!["has_many_select"@, table, record_id, child] + rest;
    lemma_segments_of_join(segs);
    assert(segs.subrange(4, segs.len() as int) =~= rest);
    assert(segs[0] == "has_many_select"@ && segs[1] == table && segs[2] == record_id && segs[3]
        == child);
    lemma_first_match_iff(reg.window_names(), table);
    assert(reg.windows.len() == reg.windows@.len());
    if reg.window_index(table) is Some {
        let w = reg.window_index(table)->0;
        lemma_first_match_iff(reg.windows@[w].has_many_names(), child);
        assert(reg.windows@[w].has_many_tabs.len() == reg.windows@[w].has_many_tabs@.len());
    }
}

/// `indirect_select/T/id/I/...` is not found unless `I` is the table of an
/// indirect tab of `T`'s window, whatever page parameters follow; where it
/// is one, the page parameters are read, and the rows are reached through
/// the linker table paired with that tab.
pub proof fn lemma_indirect_select(
    reg: Registry,
    table: Seq<char>,
    record_id: Seq<char>,
    indirect: Seq<char>,
    rest: Seq<Seq<char>>,
    db_url: Option<Seq<char>>,
    body: Seq<u8>,
)
    requires
        are_path_segments(seq!["indirect_select"@, table, record_id, indirect] + rest),
    ensures
        ({
            let r = serve_of(
                reg,
                join_path(seq!["indirect_select"@, table, record_id, indirect] + rest),
                db_url,
                body,
            );
            &&& (reg.window_index(table) is None || first_match(
                reg.windows@[reg.window_index(table)->0].indirect_names(),
                indirect,
            ) is None) ==> r == Err::<ActionView, ApiError>(ApiError::NotFound)
            &&& (reg.window_index(table) is Some && first_match(
                reg.windows@[reg.window_index(table)->0].indirect_names(),
                indirect,
            ) is Some && page_query_of(rest) is Err) ==> r == Err::<ActionView, ApiError>(
                page_query_of(rest)->Err_0,
            )
            &&& (reg.window_index(table) is Some && first_match(
                reg.windows@[reg.window_index(table)->0].indirect_names(),
                indirect,
            ) is Some && page_query_of(rest) is Ok) ==> (r matches Ok(
                ActionView::ListIndirect { window, record_id: id, tab, linker_table, page, page_size },
            ) && reg.windows@[window as int].name() == table
                && reg.windows@[window as int].indirect_names()[tab as int] == indirect
                && linker_table == reg.windows@[window as int].indirect_tabs@[tab as int].linker_table@
                && id == record_id && Ok::<PageQuery, ApiError>(page) == page_query_of(rest)
                && page_size == PAGE_SIZE)
        }),
{
    lemma_keywords();
    let segs = seq!["indirect_select"@, table, record_id, indirect] + rest;
    lemma_segments_of_join(segs);
    assert(segs.subrange(4, segs.len() as int) =~= rest);
    assert(segs[0] == "indirect_select"@ && segs[1] == table && segs[2] == record_id && segs[3]
        == indirect);
    lemma_first_match_iff(reg.window_names(), table);
    assert(reg.windows.len() == reg.windows@.len());
    if reg.window_index(table) is Some {
        let w = reg.window_index(table)->0;
        lemma_first_match_iff(reg.windows@[w].indirect_names(), indirect);
        assert(reg.windows@[w].indirect_tabs.len() == reg.windows@[w].indirect_tabs@.len());
    }
}

/// `delete/T` for a table without a window is not found, whatever the
/// body holds, and so deletes nothing.
pub proof fn lemma_delete_unknown_table(
    reg: Registry,
    table: Seq<char>,
    db_url: Option<Seq<char>>,
    body: Seq<u8>,
)
    requires
        table.len() > 0,
        is_plain_segment(table),
        !reg.window_names().contains(table),
    ensures
        serve_of(reg, join_path(seq!["delete"@, table]), db_url, body) == Err::<
            ActionView,
            ApiError,
        >(ApiError::NotFound),
{
    lemma_keywords();
    let segs = seq!["delete"@, table];
    lemma_segments_of_join(segs);
    lemma_first_match_iff(reg.window_names(), table);
}

/// `tab_changeset` with a body that is not well-formed JSON is a malformed
/// request, and so writes nothing.
pub proof fn lemma_changeset_invalid_body(reg: Registry, db_url: Option<Seq<char>>, body: Seq<u8>)
    requires
        !json_well_formed(body),
    ensures
        serve_of(reg, "tab_changeset"@, db_url, body) matches Err(ApiError::MalformedRequest(_)),
{
    lemma_keywords();
    let segs = seq!["tab_changeset"@];
    lemma_segments_of_join(segs);
}

} // verus!
