//! Character scanning over strings: first occurrence of a character, and
//! the boundaries of whitespace-separated tokens.

use vstd::prelude::*;

verus! {

/// Whitespace for token splitting: the ASCII whitespace characters.
pub open spec fn is_space(c: char) -> bool {
    c == ' ' || c == '\t' || c == '\n' || c == '\r' || c == '\u{b}' || c == '\u{c}'
}

/// The first index at or after `i` where `c` occurs in `s`, or `s.len()`
/// if it does not occur there.
pub open spec fn find_from(s: Seq<char>, c: char, i: int) -> int
    decreases s.len() - i,
{
    if i < 0 || i >= s.len() {
        s.len() as int
    } else if s[i] == c {
        i
    } else {
        find_from(s, c, i + 1)
    }
}

/// The first index at or after `i` where being whitespace matches `want`,
/// or `s.len()` if there is none: with `want` false it starts a token,
/// with `want` true it ends one.
pub open spec fn seek_from(s: Seq<char>, i: int, want: bool) -> int
    decreases s.len() - i,
{
    if i < 0 || i >= s.len() {
        s.len() as int
    } else if is_space(s[i]) == want {
        i
    } else {
        seek_from(s, i + 1, want)
    }
}

proof fn lemma_find_from_at(s: Seq<char>, c: char, i: int, r: int)
    requires
        0 <= i <= r <= s.len(),
        forall|j: int| i <= j < r ==> s[j] != c,
        r == s.len() || s[r] == c,
    ensures
        find_from(s, c, i) == r,
    decreases r - i,
{
    if i < r {
        lemma_find_from_at(s, c, i + 1, r);
    }
}

proof fn lemma_seek_from_at(s: Seq<char>, i: int, want: bool, r: int)
    requires
        0 <= i <= r <= s.len(),
        forall|j: int| i <= j < r ==> is_space(s[j]) != want,
        r == s.len() || is_space(s[r]) == want,
    ensures
        seek_from(s, i, want) == r,
    decreases r - i,
{
    if i < r {
        lemma_seek_from_at(s, i + 1, want, r);
    }
}

/// Whether `c` is one of the ASCII whitespace characters.
pub fn space_char(c: char) -> (r: bool)
    ensures
        r == is_space(c),
{
    c == ' ' || c == '\t' || c == '\n' || c == '\r' || c == '\u{b}' || c == '\u{c}'
}

/// The first index at or after `from` where `c` occurs in `s`, or the
/// character length of `s` if it does not occur there.
pub fn find_char(s: &str, from: usize, c: char) -> (r: usize)
    requires
        from as int <= s@.len(),
    ensures
        r as int == find_from(s@, c, from as int),
        from <= r <= s@.len(),
{
    let n = s.unicode_len();
    let mut i = from;
    while i < n
        invariant
            from <= i <= n,
            n as nat == s@.len(),
            forall|j: int| from as int <= j < i as int ==> s@[j] != c,
        decreases n - i,
    {
        if s.get_char(i) == c {
            proof {
                lemma_find_from_at(s@, c, from as int, i as int);
            }
            return i;
        }
        i = i + 1;
    }
    proof {
        lemma_find_from_at(s@, c, from as int, n as int);
    }
    n
}

/// The first index at or after `from` where being whitespace matches
/// `want`, or the character length of `s` if there is none.
pub fn seek_char(s: &str, from: usize, want: bool) -> (r: usize)
    requires
        from as int <= s@.len(),
    ensures
        r as int == seek_from(s@, from as int, want),
        from <= r <= s@.len(),
{
    let n = s.unicode_len();
    let mut i = from;
    while i < n
        invariant
            from <= i <= n,
            n as nat == s@.len(),
            forall|j: int| from as int <= j < i as int ==> is_space(s@[j]) != want,
        decreases n - i,
    {
        if space_char(s.get_char(i)) == want {
            proof {
                lemma_seek_from_at(s@, from as int, want, i as int);
            }
            return i;
        }
        i = i + 1;
    }
    proof {
        lemma_seek_from_at(s@, from as int, want, n as int);
    }
    n
}

} // verus!
