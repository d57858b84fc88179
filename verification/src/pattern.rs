//! Hierarchical topic matching for dot-separated event names.
//!
//! A pattern is split on `.` into segments. A `*` or `**` segment accepts
//! the whole remainder of the name (both wildcards short-circuit to a
//! match), a literal segment must equal the corresponding name segment,
//! and a pattern with more segments than the name never matches. This
//! match-rest reading of `*` is the documented behaviour of the matcher,
//! quirky as it is, and is kept deliberately.

use vstd::prelude::*;

use crate::text::push_char;
use crate::text::str_eq;

verus! {

/// The dot-separated segments of a topic string. An empty string has one
/// empty segment; a trailing dot ends with an empty segment.
pub open spec fn split_dots(s: Seq<char>) -> Seq<Seq<char>>
    decreases s.len(),
{
    if s.len() == 0 {
        seq![Seq::<char>::empty()]
    } else if s.last() == '.' {
        split_dots(s.drop_last()).push(Seq::<char>::empty())
    } else {
        let rest = split_dots(s.drop_last());
        rest.update(rest.len() - 1, rest.last().push(s.last()))
    }
}

pub proof fn lemma_split_dots_nonempty(s: Seq<char>)
    ensures
        split_dots(s).len() >= 1,
    decreases s.len(),
{
    if s.len() > 0 {
        lemma_split_dots_nonempty(s.drop_last());
    }
}

/// A lone `*` segment.
pub open spec fn star_seg() -> Seq<char> {
    seq!['*']
}

/// A `**` segment.
pub open spec fn star_star_seg() -> Seq<char> {
    seq!['*', '*']
}

/// The segment walk of the matcher, from position `i` on: a wildcard
/// segment accepts the rest of the name outright, a literal segment must
/// equal the name segment at the same position, and a walk that used up
/// the pattern matches when the counts were equal or the pattern ended in
/// `**`.
pub open spec fn match_from(ps: Seq<Seq<char>>, ns: Seq<Seq<char>>, i: int) -> bool
    decreases ps.len() - i,
{
    if i < 0 || i >= ps.len() {
        ps.len() == ns.len() || (ps.len() > 0 && ps.last() == star_star_seg())
    } else if ps[i] == star_seg() || ps[i] == star_star_seg() {
        true
    } else if ps[i] == ns[i] {
        match_from(ps, ns, i + 1)
    } else {
        false
    }
}

/// What it means for a pattern to select an event name: equality, the
/// universal pattern `*`, or the segment walk over the split forms.
pub open spec fn spec_match(p: Seq<char>, n: Seq<char>) -> bool {
    if p == n || p == star_seg() {
        true
    } else {
        let ps = split_dots(p);
        let ns = split_dots(n);
        ps.len() <= ns.len() && match_from(ps, ns, 0)
    }
}

/// Splits a topic string on `.` into its segments.
pub fn split_segments(s: &str) -> (r: Vec<String>)
    ensures
        r.deep_view() == split_dots(s@),
        r@.len() >= 1,
{
    let len = s.unicode_len();
    let mut segs: Vec<String> = Vec::new();
    let mut cur: String = String::new();
    let mut i: usize = 0;
    while i < len
        invariant
            i <= len,
            len == s@.len(),
            segs.deep_view().push(cur@) =~= split_dots(s@.take(i as int)),
        decreases len - i,
    {
        let c = s.get_char(i);
        proof {
            assert(s@.take(i + 1).drop_last() =~= s@.take(i as int));
            assert(s@.take(i + 1).last() == c);
        }
        if c == '.' {
            segs.push(cur);
            cur = String::new();
            proof {
                assert(segs.deep_view().push(cur@) =~= split_dots(s@.take(i + 1)));
            }
        } else {
            push_char(&mut cur, c);
            proof {
                let rest = split_dots(s@.take(i as int));
                assert(rest.last() == cur@.drop_last());
                assert(cur@.drop_last().push(cur@.last()) =~= cur@);
                assert(segs.deep_view().push(cur@) =~= rest.update(
                    rest.len() - 1,
                    rest.last().push(c),
                ));
            }
        }
        i += 1;
    }
    proof {
        assert(s@.take(len as int) =~= s@);
    }
    segs.push(cur);
    segs
}

/// Whether `pattern` selects the event name `name`, by the documented
/// algorithm of the matcher.
pub fn match_pattern(pattern: &str, name: &str) -> (r: bool)
    ensures
        r == spec_match(pattern@, name@),
{
    proof {
        reveal_strlit("*");
        reveal_strlit("**");
        assert("*"@ =~= star_seg());
        assert("**"@ =~= star_star_seg());
    }
    if str_eq(pattern, name) {
        return true;
    }
    if str_eq(pattern, "*") {
        return true;
    }
    let ps = split_segments(pattern);
    let ns = split_segments(name);
    if ps.len() > ns.len() {
        return false;
    }
    let mut i: usize = 0;
    while i < ps.len()
        invariant
            i <= ps.len(),
            ps.len() <= ns.len(),
            !(pattern@ == name@),
            !(pattern@ == star_seg()),
            ps.deep_view() == split_dots(pattern@),
            ns.deep_view() == split_dots(name@),
            match_from(ps.deep_view(), ns.deep_view(), 0) == match_from(
                ps.deep_view(),
                ns.deep_view(),
                i as int,
            ),
        decreases ps.len() - i,
    {
        proof {
            reveal_strlit("*");
            reveal_strlit("**");
            assert("*"@ =~= star_seg());
            assert("**"@ =~= star_star_seg());
            assert(ps.deep_view()[i as int] == ps@[i as int]@);
            assert(ns.deep_view()[i as int] == ns@[i as int]@);
        }
        let seg = &ps[i];
        if str_eq(seg.as_str(), "*") || str_eq(seg.as_str(), "**") {
            proof {
                assert(match_from(ps.deep_view(), ns.deep_view(), i as int));
            }
            return true;
        }
        if !str_eq(seg.as_str(), ns[i].as_str()) {
            proof {
                assert(!match_from(ps.deep_view(), ns.deep_view(), i as int));
            }
            return false;
        }
        i += 1;
    }
    if ps.len() == ns.len() {
        return true;
    }
    let last = &ps[ps.len() - 1];
    str_eq(last.as_str(), "**")
}

} // verus!
