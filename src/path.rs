//! Splitting a request path into its segments.

use vstd::prelude::*;
use vstd::string::StrSliceExecFns;

verus! {

/// The path with every leading '/' removed.
pub open spec fn trim_leading(s: Seq<char>) -> Seq<char>
    decreases s.len(),
{
    if s.len() > 0 && s[0] == '/' {
        trim_leading(s.drop_first())
    } else {
        s
    }
}

/// The path with every trailing '/' removed.
pub open spec fn trim_trailing(s: Seq<char>) -> Seq<char>
    decreases s.len(),
{
    if s.len() > 0 && s.last() == '/' {
        trim_trailing(s.drop_last())
    } else {
        s
    }
}

/// The pieces of `s` between its '/' separators; an empty `s` is one empty piece.
pub open spec fn split_slash(s: Seq<char>) -> Seq<Seq<char>>
    decreases s.len(),
{
    if s.len() == 0 {
        seq![Seq::<char>::empty()]
    } else {
        let prev = split_slash(s.drop_last());
        if s.last() == '/' {
            prev.push(Seq::<char>::empty())
        } else {
            prev.update(prev.len() - 1, prev.last().push(s.last()))
        }
    }
}

/// The segments of a request path: separators at both ends are ignored.
pub open spec fn path_segments(p: Seq<char>) -> Seq<Seq<char>> {
    split_slash(trim_trailing(trim_leading(p)))
}

/// The views of a sequence of strings.
pub open spec fn views(v: Seq<String>) -> Seq<Seq<char>> {
    v.map_values(|s: String| s@)
}

pub proof fn lemma_split_nonempty(s: Seq<char>)
    ensures
        split_slash(s).len() >= 1,
    decreases s.len(),
{
    if s.len() > 0 {
        lemma_split_nonempty(s.drop_last());
    }
}

/// Segments joined with '/' between them.
pub open spec fn join_path(segs: Seq<Seq<char>>) -> Seq<char>
    decreases segs.len(),
{
    if segs.len() == 0 {
        Seq::empty()
    } else if segs.len() == 1 {
        segs[0]
    } else {
        join_path(segs.drop_last()) + seq!['/'] + segs.last()
    }
}

/// A segment: it holds no '/'.
pub open spec fn is_plain_segment(s: Seq<char>) -> bool {
    forall|i: int| 0 <= i < s.len() ==> s[i] != '/'
}

/// Segments that a path can be written from: none holds a '/', and the
/// first and the last are not empty.
pub open spec fn are_path_segments(segs: Seq<Seq<char>>) -> bool {
    &&& segs.len() > 0
    &&& forall|i: int| 0 <= i < segs.len() ==> is_plain_segment(#[trigger] segs[i])
    &&& segs[0].len() > 0
    &&& segs.last().len() > 0
}

proof fn lemma_split_plain(s: Seq<char>)
    requires
        is_plain_segment(s),
    ensures
        split_slash(s) == seq![s],
    decreases s.len(),
{
    if s.len() > 0 {
        lemma_split_plain(s.drop_last());
        assert(s.drop_last().push(s.last()) =~= s);
        assert(seq![s.drop_last()].update(0, s.drop_last().push(s.last())) =~= seq![s]);
    } else {
        assert(s =~= Seq::<char>::empty());
    }
}

proof fn lemma_split_after_slash(s: Seq<char>, t: Seq<char>)
    requires
        is_plain_segment(t),
    ensures
        split_slash(s + seq!['/'] + t) == split_slash(s).push(t),
    decreases t.len(),
{
    let p = s + seq!['/'] + t;
    if t.len() == 0 {
        assert(p.drop_last() =~= s);
        assert(t =~= Seq::<char>::empty());
    } else {
        let t0 = t.drop_last();
        lemma_split_after_slash(s, t0);
        assert(p.drop_last() =~= s + seq!['/'] + t0);
        assert(p.last() == t.last());
        lemma_split_nonempty(s);
        let prev = split_slash(s).push(t0);
        assert(t0.push(t.last()) =~= t);
        assert(prev.update(prev.len() - 1, prev.last().push(t.last())) =~= split_slash(s).push(
            t,
        ));
    }
}

proof fn lemma_join_ends(segs: Seq<Seq<char>>)
    requires
        segs.len() > 0,
        segs[0].len() > 0,
        segs.last().len() > 0,
    ensures
        join_path(segs).len() > 0,
        join_path(segs)[0] == segs[0][0],
        join_path(segs).last() == segs.last().last(),
    decreases segs.len(),
{
    if segs.len() > 1 {
        lemma_join_ends_first(segs.drop_last());
    }
}

proof fn lemma_join_ends_first(segs: Seq<Seq<char>>)
    requires
        segs.len() > 0,
        segs[0].len() > 0,
    ensures
        join_path(segs).len() > 0,
        join_path(segs)[0] == segs[0][0],
    decreases segs.len(),
{
    if segs.len() > 1 {
        lemma_join_ends_first(segs.drop_last());
    }
}

/// A path written from segments splits back into those segments.
pub proof fn lemma_segments_of_join(segs: Seq<Seq<char>>)
    requires
        are_path_segments(segs),
    ensures
        path_segments(join_path(segs)) == segs,
{
    let p = join_path(segs);
    lemma_join_ends(segs);
    assert(trim_leading(p) == p);
    assert(trim_trailing(p) == p);
    lemma_split_join(segs);
}

proof fn lemma_split_join(segs: Seq<Seq<char>>)
    requires
        segs.len() > 0,
        forall|i: int| 0 <= i < segs.len() ==> is_plain_segment(#[trigger] segs[i]),
    ensures
        split_slash(join_path(segs)) == segs,
    decreases segs.len(),
{
    if segs.len() == 1 {
        lemma_split_plain(segs[0]);
        assert(seq![segs[0]] =~= segs);
    } else {
        let init = segs.drop_last();
        assert forall|i: int| 0 <= i < init.len() implies is_plain_segment(#[trigger] init[i]) by {
            assert(init[i] == segs[i]);
        }
        lemma_split_join(init);
        assert(is_plain_segment(segs[segs.len() - 1]));
        lemma_split_after_slash(join_path(init), segs.last());
        assert(init.push(segs.last()) =~= segs);
    }
}

/// Whether the string `seg` holds exactly the characters of `word`.
pub fn segment_is(seg: &String, word: &str) -> (r: bool)
    ensures
        r == (seg@ == word@),
{
    let s = seg.as_str();
    let n = s.unicode_len();
    let m = word.unicode_len();
    if n != m {
        return false;
    }
    let mut i: usize = 0;
    while i < n
        invariant
            n == s@.len(),
            m == word@.len(),
            n == m,
            s@ == seg@,
            0 <= i <= n,
            forall|j: int| 0 <= j < i ==> s@[j] == word@[j],
        decreases n - i,
    {
        if s.get_char(i) != word.get_char(i) {
            return false;
        }
        i = i + 1;
    }
    assert(s@ =~= word@);
    true
}

/// Splits a request path into its segments.
pub fn split_path(path: &str) -> (r: Vec<String>)
    ensures
        views(r@) == path_segments(path@),
{
    let ghost s = path@;
    let n = path.unicode_len();
    let mut start: usize = 0;
    assert(s.subrange(0, n as int) =~= s);
    while start < n && path.get_char(start) == '/'
        invariant
            n == s.len(),
            s == path@,
            0 <= start <= n,
            trim_leading(s.subrange(start as int, n as int)) == trim_leading(s),
        decreases n - start,
    {
        assert(s.subrange(start as int, n as int).drop_first() =~= s.subrange(
            start + 1,
            n as int,
        ));
        start = start + 1;
    }
    assert(trim_leading(s.subrange(start as int, n as int)) == s.subrange(start as int, n as int));
    let mut end: usize = n;
    while end > start && path.get_char(end - 1) == '/'
        invariant
            n == s.len(),
            s == path@,
            0 <= start <= end <= n,
            trim_trailing(s.subrange(start as int, end as int)) == trim_trailing(
                s.subrange(start as int, n as int),
            ),
        decreases end - start,
    {
        assert(s.subrange(start as int, end as int).drop_last() =~= s.subrange(
            start as int,
            end - 1,
        ));
        end = end - 1;
    }
    assert(trim_trailing(s.subrange(start as int, end as int)) == s.subrange(
        start as int,
        end as int,
    ));
    let ghost t = s.subrange(start as int, end as int);
    assert(path_segments(s) == split_slash(t));

    let mut out: Vec<String> = Vec::new();
    let mut seg_start: usize = start;
    let mut i: usize = start;
    assert(s.subrange(start as int, start as int) =~= Seq::<char>::empty());
    assert(views(out@) + seq![s.subrange(seg_start as int, i as int)] =~= split_slash(
        s.subrange(start as int, i as int),
    ));
    while i < end
        invariant
            n == s.len(),
            s == path@,
            0 <= start <= seg_start <= i <= end <= n,
            views(out@) + seq![s.subrange(seg_start as int, i as int)] == split_slash(
                s.subrange(start as int, i as int),
            ),
        decreases end - i,
    {
        let c = path.get_char(i);
        let ghost prev_in = s.subrange(start as int, i as int);
        let ghost next_in = s.subrange(start as int, i + 1);
        assert(next_in.drop_last() =~= prev_in);
        assert(next_in.last() == c);
        if c == '/' {
            let piece = path.substring_char(seg_start, i).to_owned();
            out.push(piece);
            seg_start = i + 1;
            i = i + 1;
            assert(s.subrange(seg_start as int, i as int) =~= Seq::<char>::empty());
            assert(views(out@) + seq![s.subrange(seg_start as int, i as int)] =~= split_slash(
                next_in,
            ));
        } else {
            i = i + 1;
            assert(s.subrange(seg_start as int, i as int) =~= s.subrange(
                seg_start as int,
                i - 1,
            ).push(c));
            assert(views(out@) + seq![s.subrange(seg_start as int, i as int)] =~= split_slash(
                next_in,
            ));
        }
    }
    let last = path.substring_char(seg_start, end).to_owned();
    out.push(last);
    assert(views(out@) =~= split_slash(t));
    out
}

} // verus!
