//! Coordinate parser: decomposes a coordinate string into its dot-separated
//! pattern segments, preserving case and whitespace. Any string, including
//! the empty one, yields at least one segment; the empty coordinate is
//! treated as one empty segment, never as an error.

use vstd::prelude::*;
use vstd::string::StrSliceExecFns;

verus! {

/// The dot-separated segments of a coordinate, in order: splitting on the
/// literal `.` character with no trimming and no case folding.
pub open spec fn dot_segments(s: Seq<char>) -> Seq<Seq<char>>
    decreases s.len(),
{
    if s.len() == 0 {
        seq![Seq::<char>::empty()]
    } else if s[0] == '.' {
        seq![Seq::<char>::empty()] + dot_segments(s.drop_first())
    } else {
        let rest = dot_segments(s.drop_first());
        seq![seq![s[0]] + rest[0]] + rest.drop_first()
    }
}

/// Splitting always yields at least one segment.
pub proof fn lemma_dot_segments_nonempty(s: Seq<char>)
    ensures
        dot_segments(s).len() >= 1,
    decreases s.len(),
{
    if s.len() > 0 {
        lemma_dot_segments_nonempty(s.drop_first());
    }
}

/// A string without a dot is a single segment: itself.
pub proof fn lemma_dot_segments_no_dot(s: Seq<char>)
    requires
        forall|j: int| 0 <= j < s.len() ==> s[j] != '.',
    ensures
        dot_segments(s) == seq![s],
    decreases s.len(),
{
    if s.len() == 0 {
        assert(s =~= Seq::<char>::empty());
        assert(dot_segments(s) =~~= seq![s]);
    } else {
        lemma_dot_segments_no_dot(s.drop_first());
        let rest = dot_segments(s.drop_first());
        assert(rest[0] == s.drop_first());
        assert(seq![s[0]] + s.drop_first() =~= s);
        assert(dot_segments(s) =~~= seq![s]);
    }
}

/// Splitting a string whose first dot stands at position `i` yields the
/// prefix before the dot, then the segments of the remainder after it.
pub proof fn lemma_dot_segments_first_dot(s: Seq<char>, i: int)
    requires
        0 <= i < s.len(),
        s[i] == '.',
        forall|j: int| 0 <= j < i ==> s[j] != '.',
    ensures
        dot_segments(s) == seq![s.subrange(0, i)] + dot_segments(s.subrange(i + 1, s.len() as int)),
    decreases i,
{
    if i == 0 {
        assert(s.subrange(0, 0) =~= Seq::<char>::empty());
        assert(s.drop_first() =~= s.subrange(1, s.len() as int));
        assert(dot_segments(s) =~~= seq![s.subrange(0, 0)] + dot_segments(
            s.subrange(1, s.len() as int),
        ));
    } else {
        let t = s.drop_first();
        assert forall|j: int| 0 <= j < i - 1 implies t[j] != '.' by {
            assert(t[j] == s[j + 1]);
        }
        assert(t[i - 1] == '.');
        lemma_dot_segments_first_dot(t, i - 1);
        let rest = dot_segments(t);
        assert(t.subrange(0, i - 1) =~= s.subrange(1, i));
        assert(t.subrange(i, t.len() as int) =~= s.subrange(i + 1, s.len() as int));
        let tail_segs = dot_segments(s.subrange(i + 1, s.len() as int));
        assert(rest == seq![s.subrange(1, i)] + tail_segs);
        assert(rest[0] == s.subrange(1, i));
        assert(rest.drop_first() =~= tail_segs);
        assert(seq![s[0]] + s.subrange(1, i) =~= s.subrange(0, i));
        assert(dot_segments(s) =~~= seq![s.subrange(0, i)] + tail_segs);
    }
}

/// A coordinate splits into two or more segments exactly when it contains a
/// dot.
pub proof fn lemma_dot_segments_multi(s: Seq<char>)
    ensures
        dot_segments(s).len() >= 2 <==> s.contains('.'),
    decreases s.len(),
{
    if s.len() == 0 {
    } else if s[0] == '.' {
        lemma_dot_segments_nonempty(s.drop_first());
    } else {
        let t = s.drop_first();
        lemma_dot_segments_multi(t);
        lemma_dot_segments_nonempty(t);
        if s.contains('.') {
            let i = choose|i: int| 0 <= i < s.len() && s[i] == '.';
            assert(t[i - 1] == '.');
            assert(t.contains('.'));
        }
        if t.contains('.') {
            let i = choose|i: int| 0 <= i < t.len() && t[i] == '.';
            assert(s[i + 1] == '.');
            assert(s.contains('.'));
        }
    }
}

/// Splits a coordinate into its dot-separated segments.
pub fn split_coordinate(s: &str) -> (segs: Vec<String>)
    ensures
        segs.deep_view() == dot_segments(s@),
        segs.len() >= 1,
{
    let n = s.unicode_len();
    let mut segs: Vec<String> = Vec::new();
    let mut start: usize = 0;
    let mut i: usize = 0;
    proof {
        assert(s@.subrange(0, n as int) =~= s@);
        assert(segs.deep_view() + dot_segments(s@) =~= dot_segments(s@));
    }
    while i < n
        invariant
            start <= i <= n,
            n == s@.len(),
            forall|j: int| start <= j < i ==> s@[j] != '.',
            segs.deep_view() + dot_segments(s@.subrange(start as int, n as int)) == dot_segments(
                s@,
            ),
        decreases n - i,
    {
        let c = s.get_char(i);
        if c == '.' {
            let seg = s.substring_char(start, i).to_owned();
            proof {
                let u = s@.subrange(start as int, n as int);
                assert forall|j: int| 0 <= j < i - start implies u[j] != '.' by {
                    assert(u[j] == s@[start + j]);
                }
                assert(u[i - start] == s@[i as int]);
                lemma_dot_segments_first_dot(u, i - start);
                assert(u.subrange(0, i - start) =~= s@.subrange(start as int, i as int));
                assert(u.subrange(i - start + 1, u.len() as int) =~= s@.subrange(
                    i + 1,
                    n as int,
                ));
                assert(segs@.push(seg).map(|k: int, x: String| x.deep_view()) =~= segs.deep_view()
                    + seq![seg@]);
                assert((segs.deep_view() + seq![seg@]) + dot_segments(
                    s@.subrange(i + 1, n as int),
                ) =~= segs.deep_view() + (seq![seg@] + dot_segments(s@.subrange(i + 1, n as int))));
                assert(seq![seg@] + dot_segments(s@.subrange(i + 1, n as int)) == dot_segments(u));
            }
            segs.push(seg);
            start = i + 1;
        }
        i += 1;
    }
    let last = s.substring_char(start, n).to_owned();
    proof {
        let u = s@.subrange(start as int, n as int);
        assert forall|j: int| 0 <= j < u.len() implies u[j] != '.' by {
            assert(u[j] == s@[start + j]);
        }
        lemma_dot_segments_no_dot(u);
        assert(segs@.push(last).map(|k: int, x: String| x.deep_view()) =~= segs.deep_view()
            + seq![last@]);
        assert(segs.deep_view() + seq![u] =~= dot_segments(s@));
    }
    segs.push(last);
    segs
}

} // verus!
