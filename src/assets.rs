//! Static assets of the user interface: which kind of content a path holds.

use vstd::prelude::*;
use crate::codec::ContentKind;
use crate::path::segment_is;
use vstd::string::{StrSliceExecFns, StringExecFns};

verus! {

/// The position of the last '.' before position `k` of `name`, not counting
/// one at position 0; 0 where there is none.
pub open spec fn last_dot_before(name: Seq<char>, k: int) -> int
    decreases k,
{
    if k <= 1 {
        0
    } else if name[k - 1] == '.' {
        k - 1
    } else {
        last_dot_before(name, k - 1)
    }
}

/// What follows the last '.' of a file name; a name whose only '.' leads
/// it has no extension.
pub open spec fn extension_of(name: Seq<char>) -> Option<Seq<char>> {
    let d = last_dot_before(name, name.len() as int);
    if d > 0 {
        Some(name.subrange(d + 1, name.len() as int))
    } else {
        None
    }
}

/// The kind of content of an asset, by the extension of its last segment.
pub open spec fn asset_kind_of(path: Seq<Seq<char>>) -> ContentKind {
    if path.len() == 0 {
        ContentKind::Binary
    } else {
        match extension_of(path.last()) {
            Some(ext) => if ext == "html"@ {
                ContentKind::Html
            } else if ext == "css"@ {
                ContentKind::Css
            } else if ext == "json"@ {
                ContentKind::Json
            } else {
                ContentKind::Binary
            },
            None => ContentKind::Binary,
        }
    }
}

/// The path of the user interface's index page.
pub open spec fn index_path() -> Seq<Seq<char>> {
    seq!["index.html"@]
}

/// The path of the user interface's index page.
pub fn index_asset() -> (r: Vec<String>)
    ensures
        crate::path::views(r@) == index_path(),
{
    let mut v: Vec<String> = Vec::new();
    v.push(String::from_str("index.html"));
    assert(crate::path::views(v@) =~= index_path());
    v
}

/// A path that stays below the asset root: at least one segment, and no
/// segment empty, `.` or `..`.
pub open spec fn is_safe_asset_path(path: Seq<Seq<char>>) -> bool {
    &&& path.len() > 0
    &&& forall|i: int|
        0 <= i < path.len() ==> #[trigger] path[i].len() > 0 && path[i] != "."@ && path[i]
            != ".."@
}

/// Whether `path` stays below the asset root.
pub fn asset_path_is_safe(path: &Vec<String>) -> (r: bool)
    ensures
        r == is_safe_asset_path(crate::path::views(path@)),
{
    let n = path.len();
    if n == 0 {
        return false;
    }
    let mut i: usize = 0;
    while i < n
        invariant
            n == path@.len(),
            0 <= i <= n,
            forall|j: int|
                0 <= j < i ==> #[trigger] crate::path::views(path@)[j].len() > 0
                    && crate::path::views(path@)[j] != "."@ && crate::path::views(path@)[j]
                    != ".."@,
        decreases n - i,
    {
        let seg = &path[i];
        assert(crate::path::views(path@)[i as int] == seg@);
        if seg.as_str().is_empty() || segment_is(seg, ".") || segment_is(seg, "..") {
            return false;
        }
        i = i + 1;
    }
    true
}

/// The extension of a file name.
pub fn extension(name: &String) -> (r: Option<String>)
    ensures
        crate::params::opt_view(r) == extension_of(name@),
{
    let s = name.as_str();
    let n = s.unicode_len();
    let mut k: usize = n;
    while k > 1 && s.get_char(k - 1) != '.'
        invariant
            n == name@.len(),
            s@ == name@,
            0 <= k <= n,
            last_dot_before(name@, k as int) == last_dot_before(name@, n as int),
        decreases k,
    {
        k = k - 1;
    }
    if k > 1 {
        Some(s.substring_char(k, n).to_owned())
    } else {
        None
    }
}

/// The kind of content of the asset at `path`.
pub fn asset_kind(path: &Vec<String>) -> (r: ContentKind)
    ensures
        r == asset_kind_of(crate::path::views(path@)),
{
    let n = path.len();
    if n == 0 {
        return ContentKind::Binary;
    }
    assert(crate::path::views(path@).last() == path@[n - 1]@);
    match extension(&path[n - 1]) {
        Some(ext) => if segment_is(&ext, "html") {
            ContentKind::Html
        } else if segment_is(&ext, "css") {
            ContentKind::Css
        } else if segment_is(&ext, "json") {
            ContentKind::Json
        } else {
            ContentKind::Binary
        },
        None => ContentKind::Binary,
    }
}

} // verus!
