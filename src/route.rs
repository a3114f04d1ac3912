//! The path router: a request path names one operation of a fixed set, and
//! the segments after its keyword are that operation's arguments.

use vstd::prelude::*;
use crate::error::{ApiError, Malformed};
use crate::path::{path_segments, segment_is, split_path, views};

verus! {

/// An operation that a request path names, with its arguments.
#[derive(Clone, Debug, PartialEq, Eq)]
pub enum Operation {
    /// The user interface's index page.
    Index,
    /// A static asset, by its path below the asset root.
    Static { path: Vec<String> },
    /// All windows of the registry.
    ListWindows,
    /// The descriptor of one window.
    ShowWindow { table: String },
    /// A page of the main table's rows; `params` are the page parameters
    /// as given, read once the table is resolved.
    ListData { table: String, params: Vec<String> },
    /// One record in full.
    SelectRecord { table: String, record_id: String },
    /// A page of child rows that point at one parent record.
    HasManySelect { table: String, record_id: String, child: String, params: Vec<String> },
    /// A page of rows reached from one record through a linker table.
    IndirectSelect { table: String, record_id: String, indirect: String, params: Vec<String> },
    /// A page of candidate rows for references to a table; the page
    /// number as given, read once the table is resolved.
    Lookup { table: String, page: String },
    /// The first page of every lookup list that a window needs.
    LookupAll { table: String },
    /// A probe of the storage connection.
    TestConnection,
    /// The configured database url.
    DbUrl,
    /// Deletion of the records whose ids the body lists.
    Delete { table: String },
    /// A save of the changes that the body describes.
    TabChangeset,
}

/// What an operation is, over plain values.
pub enum OpView {
    Index,
    Static { path: Seq<Seq<char>> },
    ListWindows,
    ShowWindow { table: Seq<char> },
    ListData { table: Seq<char>, params: Seq<Seq<char>> },
    SelectRecord { table: Seq<char>, record_id: Seq<char> },
    HasManySelect {
        table: Seq<char>,
        record_id: Seq<char>,
        child: Seq<char>,
        params: Seq<Seq<char>>,
    },
    IndirectSelect {
        table: Seq<char>,
        record_id: Seq<char>,
        indirect: Seq<char>,
        params: Seq<Seq<char>>,
    },
    Lookup { table: Seq<char>, page: Seq<char> },
    LookupAll { table: Seq<char> },
    TestConnection,
    DbUrl,
    Delete { table: Seq<char> },
    TabChangeset,
}

impl View for Operation {
    type V = OpView;

    open spec fn view(&self) -> OpView {
        match self {
            Operation::Index => OpView::Index,
            Operation::Static { path } => OpView::Static { path: views(path@) },
            Operation::ListWindows => OpView::ListWindows,
            Operation::ShowWindow { table } => OpView::ShowWindow { table: table@ },
            Operation::ListData { table, params } => OpView::ListData {
                table: table@,
                params: views(params@),
            },
            Operation::SelectRecord { table, record_id } => OpView::SelectRecord {
                table: table@,
                record_id: record_id@,
            },
            Operation::HasManySelect { table, record_id, child, params } => OpView::HasManySelect {
                table: table@,
                record_id: record_id@,
                child: child@,
                params: views(params@),
            },
            Operation::IndirectSelect { table, record_id, indirect, params } =>
                OpView::IndirectSelect {
                table: table@,
                record_id: record_id@,
                indirect: indirect@,
                params: views(params@),
            },
            Operation::Lookup { table, page } => OpView::Lookup { table: table@, page: page@ },
            Operation::LookupAll { table } => OpView::LookupAll { table: table@ },
            Operation::TestConnection => OpView::TestConnection,
            Operation::DbUrl => OpView::DbUrl,
            Operation::Delete { table } => OpView::Delete { table: table@ },
            Operation::TabChangeset => OpView::TabChangeset,
        }
    }
}

pub open spec fn op_result_view(r: Result<Operation, ApiError>) -> Result<OpView, ApiError> {
    match r {
        Ok(op) => Ok(op@),
        Err(e) => Err(e),
    }
}

pub open spec fn missing_segment() -> ApiError {
    ApiError::MalformedRequest(Malformed::MissingSegment)
}

/// The operation that the segments of a path name. The segments after the
/// keyword are its arguments, unparsed: page parameters and page numbers
/// are read by the handler once it has resolved the tables. Segments after
/// those an operation takes are ignored; too few of them make the request
/// malformed; an unknown keyword is not found.
pub open spec fn route_of(segs: Seq<Seq<char>>) -> Result<OpView, ApiError> {
    let n = segs.len();
    if n == 0 || segs[0].len() == 0 {
        Ok(OpView::Index)
    } else if segs[0] == "static"@ {
        Ok(OpView::Static { path: segs.subrange(1, n as int) })
    } else if segs[0] == "windows"@ {
        Ok(OpView::ListWindows)
    } else if segs[0] == "window"@ {
        if n < 2 {
            Err(missing_segment())
        } else {
            Ok(OpView::ShowWindow { table: segs[1] })
        }
    } else if segs[0] == "data"@ {
        if n < 2 {
            Err(missing_segment())
        } else {
            Ok(OpView::ListData { table: segs[1], params: segs.subrange(2, n as int) })
        }
    } else if segs[0] == "select"@ {
        if n < 3 {
            Err(missing_segment())
        } else {
            Ok(OpView::SelectRecord { table: segs[1], record_id: segs[2] })
        }
    } else if segs[0] == "has_many_select"@ {
        if n < 4 {
            Err(missing_segment())
        } else {
            Ok(
                OpView::HasManySelect {
                    table: segs[1],
                    record_id: segs[2],
                    child: segs[3],
                    params: segs.subrange(4, n as int),
                },
            )
        }
    } else if segs[0] == "indirect_select"@ {
        if n < 4 {
            Err(missing_segment())
        } else {
            Ok(
                OpView::IndirectSelect {
                    table: segs[1],
                    record_id: segs[2],
                    indirect: segs[3],
                    params: segs.subrange(4, n as int),
                },
            )
        }
    } else if segs[0] == "lookup"@ {
        if n < 3 {
            Err(missing_segment())
        } else {
            Ok(OpView::Lookup { table: segs[1], page: segs[2] })
        }
    } else if segs[0] == "lookup_all"@ {
        if n < 2 {
            Err(missing_segment())
        } else {
            Ok(OpView::LookupAll { table: segs[1] })
        }
    } else if segs[0] == "test"@ {
        Ok(OpView::TestConnection)
    } else if segs[0] == "db_url"@ {
        Ok(OpView::DbUrl)
    } else if segs[0] == "delete"@ {
        if n < 2 {
            Err(missing_segment())
        } else {
            Ok(OpView::Delete { table: segs[1] })
        }
    } else if segs[0] == "tab_changeset"@ {
        Ok(OpView::TabChangeset)
    } else {
        Err(ApiError::NotFound)
    }
}

/// Copies the segments from position `start` on.
pub(crate) fn copy_tail(segs: &Vec<String>, start: usize) -> (r: Vec<String>)
    requires
        start <= segs@.len(),
    ensures
        views(r@) == views(segs@).subrange(start as int, segs@.len() as int),
{
    let n = segs.len();
    let mut out: Vec<String> = Vec::new();
    let mut i: usize = start;
    while i < n
        invariant
            n == segs@.len(),
            start <= i <= n,
            views(out@) == views(segs@).subrange(start as int, i as int),
        decreases n - i,
    {
        let s = segs[i].clone();
        assert(s@ == views(segs@)[i as int]);
        let ghost before = out@;
        out.push(s);
        assert(views(out@) =~= views(before).push(s@));
        i = i + 1;
        assert(views(out@) =~= views(segs@).subrange(start as int, i as int));
    }
    out
}

/// Classifies the segments of a path as one operation with its arguments.
pub fn route(segs: &Vec<String>) -> (r: Result<Operation, ApiError>)
    ensures
        op_result_view(r) == route_of(views(segs@)),
{
    let ghost v = views(segs@);
    let n = segs.len();
    if n == 0 || segs[0].as_str().is_empty() {
        return Ok(Operation::Index);
    }
    let head = &segs[0];
    assert(v[0] == head@);
    assert(n >= 2 ==> v[1] == segs@[1]@);
    assert(n >= 3 ==> v[2] == segs@[2]@);
    assert(n >= 4 ==> v[3] == segs@[3]@);
    if segment_is(head, "static") {
        Ok(Operation::Static { path: copy_tail(segs, 1) })
    } else if segment_is(head, "windows") {
        Ok(Operation::ListWindows)
    } else if segment_is(head, "window") {
        if n < 2 {
            Err(ApiError::MalformedRequest(Malformed::MissingSegment))
        } else {
            Ok(Operation::ShowWindow { table: segs[1].clone() })
        }
    } else if segment_is(head, "data") {
        if n < 2 {
            Err(ApiError::MalformedRequest(Malformed::MissingSegment))
        } else {
            Ok(Operation::ListData { table: segs[1].clone(), params: copy_tail(segs, 2) })
        }
    } else if segment_is(head, "select") {
        if n < 3 {
            Err(ApiError::MalformedRequest(Malformed::MissingSegment))
        } else {
            Ok(Operation::SelectRecord { table: segs[1].clone(), record_id: segs[2].clone() })
        }
    } else if segment_is(head, "has_many_select") {
        if n < 4 {
            Err(ApiError::MalformedRequest(Malformed::MissingSegment))
        } else {
            Ok(
                Operation::HasManySelect {
                    table: segs[1].clone(),
                    record_id: segs[2].clone(),
                    child: segs[3].clone(),
                    params: copy_tail(segs, 4),
                },
            )
        }
    } else if segment_is(head, "indirect_select") {
        if n < 4 {
            Err(ApiError::MalformedRequest(Malformed::MissingSegment))
        } else {
            Ok(
                Operation::IndirectSelect {
                    table: segs[1].clone(),
                    record_id: segs[2].clone(),
                    indirect: segs[3].clone(),
                    params: copy_tail(segs, 4),
                },
            )
        }
    } else if segment_is(head, "lookup") {
        if n < 3 {
            Err(ApiError::MalformedRequest(Malformed::MissingSegment))
        } else {
            Ok(Operation::Lookup { table: segs[1].clone(), page: segs[2].clone() })
        }
    } else if segment_is(head, "lookup_all") {
        if n < 2 {
            Err(ApiError::MalformedRequest(Malformed::MissingSegment))
        } else {
            Ok(Operation::LookupAll { table: segs[1].clone() })
        }
    } else if segment_is(head, "test") {
        Ok(Operation::TestConnection)
    } else if segment_is(head, "db_url") {
        Ok(Operation::DbUrl)
    } else if segment_is(head, "delete") {
        if n < 2 {
            Err(ApiError::MalformedRequest(Malformed::MissingSegment))
        } else {
            Ok(Operation::Delete { table: segs[1].clone() })
        }
    } else if segment_is(head, "tab_changeset") {
        Ok(Operation::TabChangeset)
    } else {
        Err(ApiError::NotFound)
    }
}

/// Classifies a request path: separators at both ends are ignored, and the
/// rest is split on '/' and routed.
pub fn parse_path(path: &str) -> (r: Result<Operation, ApiError>)
    ensures
        op_result_view(r) == route_of(path_segments(path@)),
{
    let segs = split_path(path);
    route(&segs)
}

} // verus!
