//! Abbreviation of a logical source path such as `alpha::beta::handler`:
//! every segment but the last is cut down to its first character.

use vstd::prelude::*;
use crate::text::{chars_of, lemma_single_line_concat, single_line};

verus! {

/// Whether the separator `::` begins at position `i` of `s`.
pub open spec fn separator_at(s: Seq<char>, i: int) -> bool {
    0 <= i && i + 1 < s.len() && s[i] == ':' && s[i + 1] == ':'
}

/// The position at which the first separator of `s` begins, scanning from the
/// left, or `s.len()` where `s` holds none.
pub open spec fn first_separator(s: Seq<char>) -> int
    decreases s.len(),
{
    if s.len() < 2 {
        s.len() as int
    } else if s[0] == ':' && s[1] == ':' {
        0
    } else {
        1 + first_separator(s.drop_first())
    }
}

/// What is left of a segment that is not the last one: its first character,
/// or nothing where the segment is empty.
pub open spec fn initial(segment: Seq<char>) -> Seq<char> {
    if segment.len() == 0 {
        segment
    } else {
        segment.take(1)
    }
}

/// The abbreviated form of a path: the segments are what lies between
/// separators, taken from the left; each one that a separator follows is
/// replaced by its initial, the separators stay, and the last segment stays
/// whole. A path without a separator is its own abbreviation.
pub open spec fn abbreviated_path(s: Seq<char>) -> Seq<char>
    decreases s.len(),
{
    let cut = first_separator(s);
    if cut < 0 || cut + 2 > s.len() {
        s
    } else {
        initial(s.take(cut)) + seq![':', ':'] + abbreviated_path(s.skip(cut + 2))
    }
}

/// The scan finds the separator at `k` when none begins before `k`.
pub proof fn lemma_first_separator_found(s: Seq<char>, k: int)
    requires
        separator_at(s, k),
        forall|j: int| 0 <= j < k ==> !separator_at(s, j),
    ensures
        first_separator(s) == k,
    decreases k,
{
    if k > 0 {
        assert(!separator_at(s, 0));
        let t = s.drop_first();
        assert(separator_at(t, k - 1));
        assert forall|j: int| 0 <= j < k - 1 implies !separator_at(t, j) by {
            assert(!separator_at(s, j + 1));
        }
        lemma_first_separator_found(t, k - 1);
    }
}

/// The scan runs to the end of a text in which no separator begins.
pub proof fn lemma_first_separator_absent(s: Seq<char>)
    requires
        forall|j: int| 0 <= j < s.len() ==> !separator_at(s, j),
    ensures
        first_separator(s) == s.len(),
    decreases s.len(),
{
    if s.len() >= 2 {
        assert(!separator_at(s, 0));
        let t = s.drop_first();
        assert forall|j: int| 0 <= j < t.len() implies !separator_at(t, j) by {
            assert(!separator_at(s, j + 1));
        }
        lemma_first_separator_absent(t);
    }
}

/// The scan's result lies within the text.
pub proof fn lemma_first_separator_bounds(s: Seq<char>)
    ensures
        0 <= first_separator(s) <= s.len(),
    decreases s.len(),
{
    if s.len() >= 2 && !(s[0] == ':' && s[1] == ':') {
        lemma_first_separator_bounds(s.drop_first());
    }
}

/// Abbreviation brings no line feed into a path that holds none.
pub proof fn lemma_abbreviated_single_line(s: Seq<char>)
    requires
        single_line(s),
    ensures
        single_line(abbreviated_path(s)),
    decreases s.len(),
{
    let cut = first_separator(s);
    lemma_first_separator_bounds(s);
    if cut + 2 <= s.len() {
        let rest = s.skip(cut + 2);
        assert forall|i: int| 0 <= i < rest.len() implies rest[i] != '\n' by {
            assert(rest[i] == s[cut + 2 + i]);
        }
        lemma_abbreviated_single_line(rest);
        let head = initial(s.take(cut));
        assert forall|i: int| 0 <= i < head.len() implies head[i] != '\n' by {
            assert(head[i] == s[i]);
        }
        lemma_single_line_concat(head, seq![':', ':']);
        lemma_single_line_concat(head + seq![':', ':'], abbreviated_path(rest));
    }
}

/// Abbreviates a source path: `alpha::beta::request_handler` becomes
/// `a::b::request_handler`. An empty segment before a separator contributes
/// nothing but its separator, and a path without separators is returned as
/// it is.
pub fn abbreviate_path(path: &str) -> (out: String)
    ensures
        out@ == abbreviated_path(path@),
{
    let chars = chars_of(path);
    let n = chars.len();
    let mut out = String::new();
    let mut start: usize = 0;
    let mut i: usize = 0;
    assert(chars@.skip(0) == chars@);
    while i < n
        invariant
            n == chars.len(),
            start <= i <= n,
            abbreviated_path(chars@) == out@ + abbreviated_path(chars@.skip(start as int)),
            forall|j: int| start <= j < i ==> !separator_at(chars@, j),
        decreases n - i,
    {
        if chars[i] == ':' && i + 1 < n && chars[i + 1] == ':' {
            let ghost rest = chars@.skip(start as int);
            let ghost before = out@;
            proof {
                assert(separator_at(rest, i - start));
                assert forall|j: int| 0 <= j < i - start implies !separator_at(rest, j) by {
                    assert(!separator_at(chars@, start + j));
                }
                lemma_first_separator_found(rest, i - start);
                assert(rest.skip(i - start + 2) == chars@.skip(i + 2));
            }
            if start < i {
                out.push(chars[start]);
                assert(initial(rest.take(i - start)) == seq![chars@[start as int]]);
            } else {
                assert(initial(rest.take(i - start)) == Seq::<char>::empty());
            }
            out.push(':');
            out.push(':');
            assert(out@ == before + initial(rest.take(i - start)) + seq![':', ':']);
            i = i + 2;
            start = i;
        } else {
            i = i + 1;
        }
    }
    let ghost tail = chars@.skip(start as int);
    proof {
        assert forall|j: int| 0 <= j < tail.len() implies !separator_at(tail, j) by {
            assert(!separator_at(chars@, start + j));
        }
        lemma_first_separator_absent(tail);
        assert(abbreviated_path(tail) == tail);
    }
    let mut k: usize = start;
    while k < n
        invariant
            n == chars.len(),
            start <= k <= n,
            abbreviated_path(chars@) == out@ + chars@.subrange(k as int, n as int),
        decreases n - k,
    {
        let ghost before = out@;
        out.push(chars[k]);
        assert(chars@.subrange(k as int, n as int) == seq![chars@[k as int]] + chars@.subrange(
            k + 1,
            n as int,
        ));
        assert(before + chars@.subrange(k as int, n as int) == out@ + chars@.subrange(
            k + 1,
            n as int,
        ));
        k = k + 1;
    }
    assert(chars@.subrange(n as int, n as int) == Seq::<char>::empty());
    out
}

} // verus!
