//! The request handlers: an operation is resolved against the registry and
//! the configuration into one request to the data access layer, or an error.

use vstd::prelude::*;
use crate::assets::{index_asset, index_path};
use crate::error::{ApiError, Malformed, Upstream};
use crate::params::{
    opt_view, page_number_of, page_query_of, parse_page_number, parse_page_request, PageQuery,
    PageRequest, PAGE_SIZE,
};
use crate::path::{path_segments, views};
use crate::route::{copy_tail, parse_path, route_of, OpView, Operation};
use crate::window::{first_match, Registry};

verus! {

/// The longest request body that is decoded.
pub const MAX_BODY_BYTES: usize = 8388608;

/// serde_json's document type, carried through unread.
#[verifier::external_type_specification]
#[verifier::external_body]
pub struct ExJsonValue(serde_json::Value);

/// serde_json's error type; only whether one came back is used.
#[verifier::external_type_specification]
#[verifier::external_body]
pub struct ExJsonError(serde_json::Error);

/// The strings of a JSON array of strings, or nothing where the bytes are not one.
pub uninterp spec fn json_string_list(b: Seq<u8>) -> Option<Seq<Seq<char>>>;

/// Whether serde_json accepts the bytes as one JSON document. It refuses
/// some well-formed JSON too: nesting deeper than its limit, and numbers
/// beyond the range of `f64`.
pub uninterp spec fn json_well_formed(b: Seq<u8>) -> bool;

/// Relies on serde_json::from_slice decoding a JSON array of strings: whether
/// it succeeds, and the strings it yields, depend on the bytes alone.
#[verifier::external_body]
fn json_strings(body: &[u8]) -> (r: Result<Vec<String>, serde_json::Error>)
    ensures
        match r {
            Ok(ids) => json_string_list(body@) == Some(views(ids@)),
            Err(_) => json_string_list(body@) is None,
        },
{
    serde_json::from_slice::<Vec<String>>(body)
}

/// Relies on serde_json::from_slice decoding a `serde_json::Value`: it
/// succeeds exactly on well-formed JSON, which depends on the bytes alone.
#[verifier::external_body]
fn json_document(body: &[u8]) -> (r: Result<serde_json::Value, serde_json::Error>)
    ensures
        r is Ok <==> json_well_formed(body@),
{
    serde_json::from_slice::<serde_json::Value>(body)
}

/// One request to the data access layer, with its tables resolved: `window`
/// is a position in the registry, `tab` a position among that window's tabs.
#[derive(Debug, PartialEq)]
pub enum Action {
    ServeStatic { path: Vec<String> },
    ListWindows,
    ShowWindow { window: usize },
    ListMain { window: usize, page: PageRequest, page_size: u32 },
    SelectRecord { window: usize, record_id: String },
    ListHasMany { window: usize, record_id: String, tab: usize, page: PageRequest, page_size: u32 },
    ListIndirect {
        window: usize,
        record_id: String,
        tab: usize,
        linker_table: String,
        page: PageRequest,
        page_size: u32,
    },
    LookupPage { window: usize, page: u32, page_size: u32 },
    LookupAll { window: usize },
    TestConnection { db_url: String },
    ShowDbUrl { db_url: String },
    DeleteRecords { window: usize, record_ids: Vec<String> },
    SaveChangeset { changeset: serde_json::Value },
}

/// What an action is, over plain values; a changeset stays opaque.
pub enum ActionView {
    ServeStatic { path: Seq<Seq<char>> },
    ListWindows,
    ShowWindow { window: usize },
    ListMain { window: usize, page: PageQuery, page_size: u32 },
    SelectRecord { window: usize, record_id: Seq<char> },
    ListHasMany {
        window: usize,
        record_id: Seq<char>,
        tab: usize,
        page: PageQuery,
        page_size: u32,
    },
    ListIndirect {
        window: usize,
        record_id: Seq<char>,
        tab: usize,
        linker_table: Seq<char>,
        page: PageQuery,
        page_size: u32,
    },
    LookupPage { window: usize, page: u32, page_size: u32 },
    LookupAll { window: usize },
    TestConnection { db_url: Seq<char> },
    ShowDbUrl { db_url: Seq<char> },
    DeleteRecords { window: usize, record_ids: Seq<Seq<char>> },
    SaveChangeset,
}

impl View for Action {
    type V = ActionView;

    open spec fn view(&self) -> ActionView {
        match self {
            Action::ServeStatic { path } => ActionView::ServeStatic { path: views(path@) },
            Action::ListWindows => ActionView::ListWindows,
            Action::ShowWindow { window } => ActionView::ShowWindow { window: *window },
            Action::ListMain { window, page, page_size } => ActionView::ListMain {
                window: *window,
                page: page@,
                page_size: *page_size,
            },
            Action::SelectRecord { window, record_id } => ActionView::SelectRecord {
                window: *window,
                record_id: record_id@,
            },
            Action::ListHasMany { window, record_id, tab, page, page_size } =>
                ActionView::ListHasMany {
                window: *window,
                record_id: record_id@,
                tab: *tab,
                page: page@,
                page_size: *page_size,
            },
            Action::ListIndirect { window, record_id, tab, linker_table, page, page_size } =>
                ActionView::ListIndirect {
                window: *window,
                record_id: record_id@,
                tab: *tab,
                linker_table: linker_table@,
                page: page@,
                page_size: *page_size,
            },
            Action::LookupPage { window, page, page_size } => ActionView::LookupPage {
                window: *window,
                page: *page,
                page_size: *page_size,
            },
            Action::LookupAll { window } => ActionView::LookupAll { window: *window },
            Action::TestConnection { db_url } => ActionView::TestConnection { db_url: db_url@ },
            Action::ShowDbUrl { db_url } => ActionView::ShowDbUrl { db_url: db_url@ },
            Action::DeleteRecords { window, record_ids } => ActionView::DeleteRecords {
                window: *window,
                record_ids: views(record_ids@),
            },
            Action::SaveChangeset { .. } => ActionView::SaveChangeset,
        }
    }
}

pub open spec fn action_result_view(r: Result<Action, ApiError>) -> Result<ActionView, ApiError> {
    match r {
        Ok(a) => Ok(a@),
        Err(e) => Err(e),
    }
}

/// The record ids that a delete body lists.
pub open spec fn record_ids_of(body: Seq<u8>) -> Result<Seq<Seq<char>>, ApiError> {
    if body.len() > MAX_BODY_BYTES {
        Err(ApiError::MalformedRequest(Malformed::BodyTooLarge))
    } else {
        match json_string_list(body) {
            Some(ids) => Ok(ids),
            None => Err(ApiError::MalformedRequest(Malformed::InvalidBody)),
        }
    }
}

/// Whether a changeset body can be handed on, and if not, why.
pub open spec fn changeset_check(body: Seq<u8>) -> Result<(), ApiError> {
    if body.len() > MAX_BODY_BYTES {
        Err(ApiError::MalformedRequest(Malformed::BodyTooLarge))
    } else if json_well_formed(body) {
        Ok(())
    } else {
        Err(ApiError::MalformedRequest(Malformed::InvalidBody))
    }
}

/// A delete: the table must have a window before the ids are looked at.
pub open spec fn delete_of(reg: Registry, table: Seq<char>, ids: Result<Seq<Seq<char>>, ApiError>) -> Result<
    ActionView,
    ApiError,
> {
    match reg.window_index(table) {
        None => Err(ApiError::NotFound),
        Some(w) => match ids {
            Ok(v) => Ok(ActionView::DeleteRecords { window: w as usize, record_ids: v }),
            Err(e) => Err(e),
        },
    }
}

/// The request to the data access layer that an operation makes, given the
/// configured database url and the request body.
pub open spec fn plan_of(reg: Registry, op: OpView, db_url: Option<Seq<char>>, body: Seq<u8>) -> Result<
    ActionView,
    ApiError,
> {
    match op {
        OpView::Index => Ok(ActionView::ServeStatic { path: index_path() }),
        OpView::Static { path } => Ok(ActionView::ServeStatic { path }),
        OpView::ListWindows => Ok(ActionView::ListWindows),
        OpView::ShowWindow { table } => match reg.window_index(table) {
            Some(w) => Ok(ActionView::ShowWindow { window: w as usize }),
            None => Err(ApiError::NotFound),
        },
        OpView::ListData { table, params } => match reg.window_index(table) {
            Some(w) => match page_query_of(params) {
                Ok(page) => Ok(
                    ActionView::ListMain { window: w as usize, page, page_size: PAGE_SIZE },
                ),
                Err(e) => Err(e),
            },
            None => Err(ApiError::NotFound),
        },
        OpView::SelectRecord { table, record_id } => match reg.window_index(table) {
            Some(w) => Ok(ActionView::SelectRecord { window: w as usize, record_id }),
            None => Err(ApiError::NotFound),
        },
        OpView::HasManySelect { table, record_id, child, params } => match reg.window_index(
            table,
        ) {
            Some(w) => match first_match(reg.windows@[w].has_many_names(), child) {
                Some(k) => match page_query_of(params) {
                    Ok(page) => Ok(
                        ActionView::ListHasMany {
                            window: w as usize,
                            record_id,
                            tab: k as usize,
                            page,
                            page_size: PAGE_SIZE,
                        },
                    ),
                    Err(e) => Err(e),
                },
                None => Err(ApiError::NotFound),
            },
            None => Err(ApiError::NotFound),
        },
        OpView::IndirectSelect { table, record_id, indirect, params } => match reg.window_index(
            table,
        ) {
            Some(w) => match first_match(reg.windows@[w].indirect_names(), indirect) {
                Some(k) => match page_query_of(params) {
                    Ok(page) => Ok(
                        ActionView::ListIndirect {
                            window: w as usize,
                            record_id,
                            tab: k as usize,
                            linker_table: reg.windows@[w].indirect_tabs@[k].linker_table@,
                            page,
                            page_size: PAGE_SIZE,
                        },
                    ),
                    Err(e) => Err(e),
                },
                None => Err(ApiError::NotFound),
            },
            None => Err(ApiError::NotFound),
        },
        OpView::Lookup { table, page } => match reg.window_index(table) {
            Some(w) => match page_number_of(page) {
                Some(p) => Ok(
                    ActionView::LookupPage { window: w as usize, page: p, page_size: PAGE_SIZE },
                ),
                None => Err(ApiError::MalformedRequest(Malformed::InvalidPageNumber)),
            },
            None => Err(ApiError::NotFound),
        },
        OpView::LookupAll { table } => match reg.window_index(table) {
            Some(w) => Ok(ActionView::LookupAll { window: w as usize }),
            None => Err(ApiError::NotFound),
        },
        OpView::TestConnection => match db_url {
            Some(u) => Ok(ActionView::TestConnection { db_url: u }),
            None => Err(ApiError::UpstreamFailure(Upstream::NoDatabaseUrl)),
        },
        OpView::DbUrl => match db_url {
            Some(u) => Ok(ActionView::ShowDbUrl { db_url: u }),
            None => Err(ApiError::UpstreamFailure(Upstream::NoDatabaseUrl)),
        },
        OpView::Delete { table } => delete_of(reg, table, record_ids_of(body)),
        OpView::TabChangeset => match changeset_check(body) {
            Ok(()) => Ok(ActionView::SaveChangeset),
            Err(e) => Err(e),
        },
    }
}

/// What a request for `path` asks of the data access layer.
pub open spec fn serve_of(reg: Registry, path: Seq<char>, db_url: Option<Seq<char>>, body: Seq<u8>) -> Result<
    ActionView,
    ApiError,
> {
    match route_of(path_segments(path)) {
        Ok(op) => plan_of(reg, op, db_url, body),
        Err(e) => Err(e),
    }
}

/// Decodes the body of a delete: a JSON array of record-id strings, no
/// longer than `MAX_BODY_BYTES`.
pub fn decode_record_ids(body: &[u8]) -> (r: Result<Vec<String>, ApiError>)
    ensures
        match r {
            Ok(ids) => record_ids_of(body@) == Ok::<Seq<Seq<char>>, ApiError>(views(ids@)),
            Err(e) => record_ids_of(body@) == Err::<Seq<Seq<char>>, ApiError>(e),
        },
{
    if body.len() > MAX_BODY_BYTES {
        return Err(ApiError::MalformedRequest(Malformed::BodyTooLarge));
    }
    match json_strings(body) {
        Ok(ids) => Ok(ids),
        Err(_) => Err(ApiError::MalformedRequest(Malformed::InvalidBody)),
    }
}

/// Decodes the body of a changeset save: one JSON document, no longer than
/// `MAX_BODY_BYTES`.
pub fn decode_changeset(body: &[u8]) -> (r: Result<serde_json::Value, ApiError>)
    ensures
        match r {
            Ok(_) => changeset_check(body@) == Ok::<(), ApiError>(()),
            Err(e) => changeset_check(body@) == Err::<(), ApiError>(e),
        },
{
    if body.len() > MAX_BODY_BYTES {
        return Err(ApiError::MalformedRequest(Malformed::BodyTooLarge));
    }
    match json_document(body) {
        Ok(v) => Ok(v),
        Err(_) => Err(ApiError::MalformedRequest(Malformed::InvalidBody)),
    }
}

/// Plans a delete from the decoded body: an unknown table is not found,
/// whatever the body held; otherwise a body that could not be decoded is
/// the error, and the ids are deleted from the window's main table.
pub fn plan_delete(reg: &Registry, table: &String, ids: Result<Vec<String>, ApiError>) -> (r:
    Result<Action, ApiError>)
    ensures
        action_result_view(r) == delete_of(
            *reg,
            table@,
            match ids {
                Ok(v) => Ok::<Seq<Seq<char>>, ApiError>(views(v@)),
                Err(e) => Err::<Seq<Seq<char>>, ApiError>(e),
            },
        ),
{
    match reg.find_window(table) {
        None => Err(ApiError::NotFound),
        Some(w) => match ids {
            Ok(v) => Ok(Action::DeleteRecords { window: w, record_ids: v }),
            Err(e) => Err(e),
        },
    }
}

/// Reads a whole list of page parameters.
fn read_params(params: &Vec<String>) -> (r: Result<PageRequest, ApiError>)
    ensures
        match r {
            Ok(q) => page_query_of(views(params@)) == Ok::<PageQuery, ApiError>(q@),
            Err(e) => page_query_of(views(params@)) == Err::<PageQuery, ApiError>(e),
        },
{
    let r = parse_page_request(params, 0);
    assert(views(params@).subrange(0, params@.len() as int) =~= views(params@));
    r
}

/// Resolves an operation into one request to the data access layer.
pub fn plan(reg: &Registry, op: &Operation, db_url: &Option<String>, body: &[u8]) -> (r: Result<
    Action,
    ApiError,
>)
    ensures
        action_result_view(r) == plan_of(*reg, op@, opt_view(*db_url), body@),
{
    match op {
        Operation::Index => Ok(Action::ServeStatic { path: index_asset() }),
        Operation::Static { path } => {
            let copy = copy_tail(path, 0);
            assert(views(path@).subrange(0, path@.len() as int) =~= views(path@));
            Ok(Action::ServeStatic { path: copy })
        },
        Operation::ListWindows => Ok(Action::ListWindows),
        Operation::ShowWindow { table } => match reg.find_window(table) {
            Some(w) => Ok(Action::ShowWindow { window: w }),
            None => Err(ApiError::NotFound),
        },
        Operation::ListData { table, params } => match reg.find_window(table) {
            Some(w) => {
                let page = read_params(params)?;
                Ok(Action::ListMain { window: w, page, page_size: PAGE_SIZE })
            },
            None => Err(ApiError::NotFound),
        },
        Operation::SelectRecord { table, record_id } => match reg.find_window(table) {
            Some(w) => Ok(Action::SelectRecord { window: w, record_id: record_id.clone() }),
            None => Err(ApiError::NotFound),
        },
        Operation::HasManySelect { table, record_id, child, params } => match reg.find_window(
            table,
        ) {
            Some(w) => match reg.windows[w].find_has_many(child) {
                Some(k) => {
                    let page = read_params(params)?;
                    Ok(
                        Action::ListHasMany {
                            window: w,
                            record_id: record_id.clone(),
                            tab: k,
                            page,
                            page_size: PAGE_SIZE,
                        },
                    )
                },
                None => Err(ApiError::NotFound),
            },
            None => Err(ApiError::NotFound),
        },
        Operation::IndirectSelect { table, record_id, indirect, params } => match reg.find_window(
            table,
        ) {
            Some(w) => match reg.windows[w].find_indirect(indirect) {
                Some(k) => {
                    let page = read_params(params)?;
                    Ok(
                        Action::ListIndirect {
                            window: w,
                            record_id: record_id.clone(),
                            tab: k,
                            linker_table: reg.windows[w].indirect_tabs[k].linker_table.clone(),
                            page,
                            page_size: PAGE_SIZE,
                        },
                    )
                },
                None => Err(ApiError::NotFound),
            },
            None => Err(ApiError::NotFound),
        },
        Operation::Lookup { table, page } => match reg.find_window(table) {
            Some(w) => match parse_page_number(page) {
                Some(p) => Ok(Action::LookupPage { window: w, page: p, page_size: PAGE_SIZE }),
                None => Err(ApiError::MalformedRequest(Malformed::InvalidPageNumber)),
            },
            None => Err(ApiError::NotFound),
        },
        Operation::LookupAll { table } => match reg.find_window(table) {
            Some(w) => Ok(Action::LookupAll { window: w }),
            None => Err(ApiError::NotFound),
        },
        Operation::TestConnection => match db_url {
            Some(u) => Ok(Action::TestConnection { db_url: u.clone() }),
            None => Err(ApiError::UpstreamFailure(Upstream::NoDatabaseUrl)),
        },
        Operation::DbUrl => match db_url {
            Some(u) => Ok(Action::ShowDbUrl { db_url: u.clone() }),
            None => Err(ApiError::UpstreamFailure(Upstream::NoDatabaseUrl)),
        },
        Operation::Delete { table } => plan_delete(reg, table, decode_record_ids(body)),
        Operation::TabChangeset => match decode_changeset(body) {
            Ok(v) => Ok(Action::SaveChangeset { changeset: v }),
            Err(e) => Err(e),
        },
    }
}

/// Serves a request: routes `path` and resolves the operation it names.
pub fn serve(reg: &Registry, path: &str, db_url: &Option<String>, body: &[u8]) -> (r: Result<
    Action,
    ApiError,
>)
    ensures
        action_result_view(r) == serve_of(*reg, path@, opt_view(*db_url), body@),
{
    let op = parse_path(path)?;
    plan(reg, &op, db_url, body)
}

} // verus!
