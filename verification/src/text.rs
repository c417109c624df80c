//! Small helpers on strings, and the segmentation of dotted paths.

use vstd::prelude::*;
use vstd::string::*;

verus! {

/// The first position at or after `from` that holds a `.`, or the length of
/// `s` when there is none.
pub open spec fn segment_end(s: Seq<char>, from: int) -> int
    decreases s.len() - from,
{
    if from >= s.len() || s[from] == '.' {
        from
    } else {
        segment_end(s, from + 1)
    }
}

/// Whether `s` holds no `.` at all.
pub open spec fn dot_free(s: Seq<char>) -> bool {
    forall|i: int| 0 <= i < s.len() ==> s[i] != '.'
}

/// The first three segments of a dotted path. The head is always there; a
/// segment is absent when the path ended before it.
pub struct PathView {
    pub head: Seq<char>,
    pub second: Option<Seq<char>>,
    pub third: Option<Seq<char>>,
}

/// Splits `s` on `.` and keeps the first three segments.
pub open spec fn split_path(s: Seq<char>) -> PathView {
    let e0 = segment_end(s, 0);
    if e0 >= s.len() {
        PathView { head: s.subrange(0, e0), second: None, third: None }
    } else {
        let e1 = segment_end(s, e0 + 1);
        if e1 >= s.len() {
            PathView { head: s.subrange(0, e0), second: Some(s.subrange(e0 + 1, e1)), third: None }
        } else {
            let e2 = segment_end(s, e1 + 1);
            PathView {
                head: s.subrange(0, e0),
                second: Some(s.subrange(e0 + 1, e1)),
                third: Some(s.subrange(e1 + 1, e2)),
            }
        }
    }
}

/// A segment ends inside the string, holds no `.`, and is followed by a `.`
/// unless it runs to the end.
pub proof fn lemma_segment_end_bounds(s: Seq<char>, from: int)
    requires
        0 <= from <= s.len(),
    ensures
        from <= segment_end(s, from) <= s.len(),
        forall|k: int| from <= k < segment_end(s, from) ==> s[k] != '.',
        segment_end(s, from) < s.len() ==> s[segment_end(s, from)] == '.',
    decreases s.len() - from,
{
    if from < s.len() && s[from] != '.' {
        lemma_segment_end_bounds(s, from + 1);
    }
}

/// The end of a segment is the only position with the properties that
/// `lemma_segment_end_bounds` gives.
pub proof fn lemma_segment_end_unique(s: Seq<char>, from: int, end: int)
    requires
        0 <= from <= end <= s.len(),
        forall|k: int| from <= k < end ==> s[k] != '.',
        end < s.len() ==> s[end] == '.',
    ensures
        segment_end(s, from) == end,
    decreases end - from,
{
    if from < end {
        lemma_segment_end_unique(s, from + 1, end);
    }
}

/// Two texts joined by a `.`.
pub open spec fn dotted(a: Seq<char>, b: Seq<char>) -> Seq<char> {
    a + seq!['.'] + b
}

/// Where `segment` stands in `s` from position `from` on, holds no `.`, and
/// runs to the end of `s` or to a `.`, the segment that starts at `from` ends
/// where `segment` ends.
pub proof fn lemma_segment_at(s: Seq<char>, from: int, segment: Seq<char>)
    requires
        0 <= from,
        from + segment.len() <= s.len(),
        s.subrange(from, from + segment.len()) == segment,
        dot_free(segment),
        from + segment.len() < s.len() ==> s[from + segment.len()] == '.',
    ensures
        segment_end(s, from) == from + segment.len(),
{
    assert forall|k: int| from <= k < from + segment.len() implies s[k] != '.' by {
        assert(s[k] == s.subrange(from, from + segment.len())[k - from]);
    }
    lemma_segment_end_unique(s, from, from + segment.len());
}

/// A text without a `.` is a path of one segment.
pub proof fn lemma_split_one(a: Seq<char>)
    requires
        dot_free(a),
    ensures
        split_path(a) == (PathView { head: a, second: None, third: None }),
{
    assert(a.subrange(0, a.len() as int) =~= a);
    lemma_segment_at(a, 0, a);
}

/// The head of `a.rest` is `a`, and a second segment follows.
pub proof fn lemma_split_head(a: Seq<char>, rest: Seq<char>)
    requires
        dot_free(a),
    ensures
        split_path(dotted(a, rest)).head == a,
        split_path(dotted(a, rest)).second is Some,
{
    let s = dotted(a, rest);
    assert(s.subrange(0, a.len() as int) =~= a);
    lemma_segment_at(s, 0, a);
}

/// `a.b` is a path of two segments.
pub proof fn lemma_split_two(a: Seq<char>, b: Seq<char>)
    requires
        dot_free(a),
        dot_free(b),
    ensures
        split_path(dotted(a, b)) == (PathView { head: a, second: Some(b), third: None }),
{
    let s = dotted(a, b);
    assert(s.subrange(0, a.len() as int) =~= a);
    lemma_segment_at(s, 0, a);
    let second: int = (a.len() + 1) as int;
    assert(s.subrange(second, second + b.len()) =~= b);
    lemma_segment_at(s, second, b);
}

/// `a.b.c` is a path of three segments.
pub proof fn lemma_split_three(a: Seq<char>, b: Seq<char>, c: Seq<char>)
    requires
        dot_free(a),
        dot_free(b),
        dot_free(c),
    ensures
        split_path(dotted(a, dotted(b, c))) == (PathView {
            head: a,
            second: Some(b),
            third: Some(c),
        }),
{
    let s = dotted(a, dotted(b, c));
    assert(s.subrange(0, a.len() as int) =~= a);
    lemma_segment_at(s, 0, a);
    let second: int = (a.len() + 1) as int;
    assert(s.subrange(second, second + b.len()) =~= b);
    lemma_segment_at(s, second, b);
    let third: int = (a.len() + b.len() + 2) as int;
    assert(s.subrange(third, third + c.len()) =~= c);
    lemma_segment_at(s, third, c);
}

/// What follows the third segment does not change the split.
pub proof fn lemma_split_ignores_fourth(a: Seq<char>, b: Seq<char>, c: Seq<char>, rest: Seq<char>)
    requires
        dot_free(a),
        dot_free(b),
        dot_free(c),
    ensures
        split_path(dotted(a, dotted(b, dotted(c, rest)))) == (PathView {
            head: a,
            second: Some(b),
            third: Some(c),
        }),
{
    let s = dotted(a, dotted(b, dotted(c, rest)));
    assert(s.subrange(0, a.len() as int) =~= a);
    lemma_segment_at(s, 0, a);
    let second: int = (a.len() + 1) as int;
    assert(s.subrange(second, second + b.len()) =~= b);
    lemma_segment_at(s, second, b);
    let third: int = (a.len() + b.len() + 2) as int;
    assert(s.subrange(third, third + c.len()) =~= c);
    lemma_segment_at(s, third, c);
}

/// No segment of a split path holds a `.`.
pub proof fn lemma_segments_dot_free(s: Seq<char>)
    ensures
        dot_free(split_path(s).head),
        split_path(s).second is Some ==> dot_free(split_path(s).second->0),
        split_path(s).third is Some ==> dot_free(split_path(s).third->0),
{
    lemma_segment_end_bounds(s, 0);
    let e0 = segment_end(s, 0);
    if e0 < s.len() {
        lemma_segment_end_bounds(s, e0 + 1);
        let e1 = segment_end(s, e0 + 1);
        if e1 < s.len() {
            lemma_segment_end_bounds(s, e1 + 1);
        }
    }
}

/// The segments of a path as slices of it.
pub struct PathSegments<'a> {
    pub head: &'a str,
    pub second: Option<&'a str>,
    pub third: Option<&'a str>,
}

impl<'a> PathSegments<'a> {
    pub open spec fn view(&self) -> PathView {
        PathView {
            head: self.head@,
            second: match self.second {
                Some(t) => Some(t@),
                None => None,
            },
            third: match self.third {
                Some(t) => Some(t@),
                None => None,
            },
        }
    }
}

/// Equality of two string slices.
///
/// Calls `str::eq` of std, which compares the two slices character by
/// character; the contract says that it holds exactly of equal texts.
#[verifier::external_body]
pub(crate) fn str_eq(a: &str, b: &str) -> (same: bool)
    ensures
        same == (a@ == b@),
{
    a == b
}

/// Whether no `.` stands in `s` from `from` up to, not including, `to`.
pub open spec fn dot_free_between(s: Seq<char>, from: int, to: int) -> bool {
    forall|k: int| from <= k < to ==> s[k] != '.'
}

/// Splits a dotted path into its first three segments.
pub fn split_reference<'a>(s: &'a str) -> (parts: PathSegments<'a>)
    ensures
        parts@ == split_path(s@),
{
    let len: usize = s.unicode_len();
    let mut seen: usize = 0;
    let mut d0: usize = 0;
    let mut d1: usize = 0;
    let mut d2: usize = 0;
    let mut i: usize = 0;
    broadcast use axiom_spec_iter;
    for c in it: s.chars()
        invariant
            it.seq() == s@,
            len == s@.len(),
            i == it.index(),
            seen <= 3,
            seen == 0 ==> dot_free_between(s@, 0, i as int),
            seen >= 1 ==> d0 < i && d0 == segment_end(s@, 0),
            seen == 1 ==> dot_free_between(s@, d0 + 1, i as int),
            seen >= 2 ==> d0 < d1 < i && d1 == segment_end(s@, d0 + 1),
            seen == 2 ==> dot_free_between(s@, d1 + 1, i as int),
            seen == 3 ==> d1 < d2 < i && d2 == segment_end(s@, d1 + 1),
    {
        if c == '.' && seen < 3 {
            proof {
                if seen == 0 {
                    lemma_segment_end_unique(s@, 0, i as int);
                } else if seen == 1 {
                    lemma_segment_end_unique(s@, d0 + 1, i as int);
                } else {
                    lemma_segment_end_unique(s@, d1 + 1, i as int);
                }
            }
            if seen == 0 {
                d0 = i;
            } else if seen == 1 {
                d1 = i;
            } else {
                d2 = i;
            }
            seen = seen + 1;
        }
        i = i + 1;
    }
    proof {
        if seen == 0 {
            lemma_segment_end_unique(s@, 0, len as int);
        } else if seen == 1 {
            lemma_segment_end_unique(s@, d0 + 1, len as int);
        } else if seen == 2 {
            lemma_segment_end_unique(s@, d1 + 1, len as int);
        }
    }
    if seen == 0 {
        PathSegments { head: s.substring_char(0, len), second: None, third: None }
    } else if seen == 1 {
        PathSegments {
            head: s.substring_char(0, d0),
            second: Some(s.substring_char(d0 + 1, len)),
            third: None,
        }
    } else {
        let e2: usize = if seen == 2 {
            len
        } else {
            d2
        };
        PathSegments {
            head: s.substring_char(0, d0),
            second: Some(s.substring_char(d0 + 1, d1)),
            third: Some(s.substring_char(d1 + 1, e2)),
        }
    }
}

} // verus!
