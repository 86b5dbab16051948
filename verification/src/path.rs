//! Path normalization: the variant of a route with slashes at its end is
//! mapped onto the canonical form without them.

use vstd::prelude::*;
use crate::text::chars_of;

verus! {

/// `s` without the slashes at its beginning.
pub open spec fn trim_front(s: Seq<char>) -> Seq<char>
    decreases s.len(),
{
    if s.len() > 0 && s[0] == '/' {
        trim_front(s.drop_first())
    } else {
        s
    }
}

/// `s` without the slashes at its end.
pub open spec fn trim_back(s: Seq<char>) -> Seq<char>
    decreases s.len(),
{
    if s.len() > 0 && s.last() == '/' {
        trim_back(s.drop_last())
    } else {
        s
    }
}

/// Whether a path is not in canonical form: it ends with a slash, or begins
/// with two.
pub open spec fn needs_trim(path: Seq<char>) -> bool {
    (path.len() > 0 && path.last() == '/') || (path.len() >= 2 && path[0] == '/' && path[1]
        == '/')
}

/// The canonical form of a path: a path that needs no trimming is kept; any
/// other becomes one slash followed by the path without the slashes at
/// either end. So `/orders/` becomes `/orders`, and `/` stays `/`.
pub open spec fn normalized_path(path: Seq<char>) -> Seq<char> {
    if needs_trim(path) {
        seq!['/'] + trim_back(trim_front(path))
    } else {
        path
    }
}

/// What is left after the slashes at the beginning are gone does not begin
/// with a slash.
pub proof fn lemma_trim_front_is_trimmed(s: Seq<char>)
    ensures
        trim_front(s).len() > 0 ==> trim_front(s)[0] != '/',
    decreases s.len(),
{
    if s.len() > 0 && s[0] == '/' {
        lemma_trim_front_is_trimmed(s.drop_first());
    }
}

/// What is left after the slashes at the end are gone does not end with a
/// slash, and begins as the text began: a text that does not begin with a
/// slash keeps its first character.
pub proof fn lemma_trim_back_is_trimmed(s: Seq<char>)
    ensures
        trim_back(s).len() > 0 ==> trim_back(s).last() != '/',
        s.len() > 0 && s[0] != '/' ==> trim_back(s).len() > 0 && trim_back(s)[0] == s[0],
    decreases s.len(),
{
    if s.len() > 0 && s.last() == '/' {
        lemma_trim_back_is_trimmed(s.drop_last());
    }
}

/// Normalization is idempotent: a canonical path is its own canonical form.
pub proof fn lemma_normalized_is_canonical(path: Seq<char>)
    ensures
        normalized_path(normalized_path(path)) == normalized_path(path),
{
    if needs_trim(path) {
        let front = trim_front(path);
        let core = trim_back(front);
        let out = seq!['/'] + core;
        lemma_trim_front_is_trimmed(path);
        lemma_trim_back_is_trimmed(front);
        if core.len() == 0 {
            assert(out =~= seq!['/']);
            let none = Seq::<char>::empty();
            assert(out.drop_first() =~= none);
            assert(trim_front(none) == none);
            assert(trim_front(out) == trim_front(out.drop_first()));
            assert(trim_back(none) == none);
            assert(normalized_path(out) =~= out);
        } else {
            assert(out.last() == core.last());
            assert(out[1] == core[0]);
            assert(!needs_trim(out));
        }
    }
}

/// Maps a request path onto its canonical form.
pub fn trim_slash_path(path: &str) -> (out: String)
    ensures
        out@ == normalized_path(path@),
{
    let chars = chars_of(path);
    let n = chars.len();
    let ends = n > 0 && chars[n - 1] == '/';
    let doubled = n >= 2 && chars[0] == '/' && chars[1] == '/';
    let mut out = String::new();
    if !(ends || doubled) {
        let mut k: usize = 0;
        while k < n
            invariant
                n == chars.len(),
                k <= n,
                out@ == chars@.take(k as int),
            decreases n - k,
        {
            out.push(chars[k]);
            assert(chars@.take(k + 1) == chars@.take(k as int).push(chars@[k as int]));
            k = k + 1;
        }
        assert(chars@.take(n as int) == chars@);
        return out;
    }
    let mut lo: usize = 0;
    assert(chars@.skip(0) == chars@);
    while lo < n && chars[lo] == '/'
        invariant
            n == chars.len(),
            lo <= n,
            trim_front(chars@) == trim_front(chars@.skip(lo as int)),
        decreases n - lo,
    {
        assert(chars@.skip(lo as int).drop_first() == chars@.skip(lo + 1));
        lo = lo + 1;
    }
    let ghost front = chars@.skip(lo as int);
    assert(trim_front(chars@) == front);
    let mut hi: usize = n;
    assert(front.take(n - lo) == front);
    while hi > lo && chars[hi - 1] == '/'
        invariant
            n == chars.len(),
            lo <= hi <= n,
            front == chars@.skip(lo as int),
            trim_back(front) == trim_back(front.take(hi - lo)),
        decreases hi,
    {
        assert(front.take(hi - lo).drop_last() == front.take(hi - lo - 1));
        hi = hi - 1;
    }
    assert(trim_back(front) == front.take(hi - lo));
    out.push('/');
    let mut k: usize = lo;
    while k < hi
        invariant
            n == chars.len(),
            lo <= k <= hi <= n,
            front == chars@.skip(lo as int),
            out@ == seq!['/'] + front.take(k - lo),
        decreases hi - k,
    {
        out.push(chars[k]);
        assert(front.take(k + 1 - lo) == front.take(k - lo).push(chars@[k as int]));
        k = k + 1;
    }
    out
}

} // verus!
