//! The percentage parser: extracts the charge percentage from the second
//! diagnostic line. The token read is the third whitespace-separated token
//! of the part before the first `;`; it must end in `%`, and with its
//! trailing `%` signs removed must be a string of digits whose value is no
//! greater than 100.

use vstd::prelude::*;

use crate::scan::{find_char, find_from, seek_char, seek_from};

verus! {

/// Whether `c` is a decimal digit.
pub open spec fn is_digit(c: char) -> bool {
    '0' <= c && c <= '9'
}

/// The value of the decimal digit `c`.
pub open spec fn digit_val(c: char) -> int {
    c as int - '0' as int
}

/// Whether every character of `s` is a decimal digit.
pub open spec fn all_digits(s: Seq<char>) -> bool {
    forall|j: int| 0 <= j < s.len() ==> is_digit(#[trigger] s[j])
}

/// The value of `s` read as a decimal numeral.
pub open spec fn digits_val(s: Seq<char>) -> int
    decreases s.len(),
{
    if s.len() == 0 {
        0
    } else {
        digits_val(s.drop_last()) * 10 + digit_val(s.last())
    }
}

/// `s` with every trailing `%` removed.
pub open spec fn strip_percent(s: Seq<char>) -> Seq<char>
    decreases s.len(),
{
    if s.len() > 0 && s.last() == '%' {
        strip_percent(s.drop_last())
    } else {
        s
    }
}

/// The percentage a token stands for: the token must end in `%`, and
/// after removing its trailing `%` signs there must remain a nonempty
/// string of digits whose value is at most 100; anything else is
/// rejected, a bare numeral without the sign included.
pub open spec fn parse_pct(t: Seq<char>) -> Option<u8> {
    let d = strip_percent(t);
    if t.len() > 0 && t.last() == '%' && d.len() > 0 && all_digits(d) && digits_val(d) <= 100 {
        Some(digits_val(d) as u8)
    } else {
        None
    }
}

/// The percentage carried by a diagnostic line: the third
/// whitespace-separated token of the part before the first `;`, if there
/// is one, read as a percentage.
pub open spec fn parse_life_spec(line: Seq<char>) -> Option<u8> {
    let seg = line.take(find_from(line, ';', 0));
    let t0s = seek_from(seg, 0, false);
    let t0e = seek_from(seg, t0s, true);
    let t1s = seek_from(seg, t0e, false);
    let t1e = seek_from(seg, t1s, true);
    let t2s = seek_from(seg, t1e, false);
    let t2e = seek_from(seg, t2s, true);
    if t2s < seg.len() {
        parse_pct(seg.subrange(t2s, t2e))
    } else {
        None
    }
}

proof fn lemma_strip_percent_take(t: Seq<char>, k: int)
    requires
        0 <= k <= t.len(),
        forall|j: int| k <= j < t.len() ==> t[j] == '%',
        k == 0 || t[k - 1] != '%',
    ensures
        strip_percent(t) == t.take(k),
    decreases t.len(),
{
    if t.len() == k {
        assert(t.take(k) =~= t);
    } else {
        let t2 = t.drop_last();
        lemma_strip_percent_take(t2, k);
        assert(t2.take(k) =~= t.take(k));
    }
}

proof fn lemma_digits_val_step(s: Seq<char>, i: int)
    requires
        0 <= i < s.len(),
    ensures
        digits_val(s.take(i + 1)) == digits_val(s.take(i)) * 10 + digit_val(s[i]),
{
    assert(s.take(i + 1).drop_last() =~= s.take(i));
    assert(s.take(i + 1).last() == s[i]);
}

proof fn lemma_digits_val_nonneg(s: Seq<char>)
    requires
        all_digits(s),
    ensures
        digits_val(s) >= 0,
    decreases s.len(),
{
    if s.len() > 0 {
        assert(all_digits(s.drop_last()));
        lemma_digits_val_nonneg(s.drop_last());
    }
}

/// A numeral's value only grows as digits are appended.
proof fn lemma_digits_val_bounds(s: Seq<char>, i: int)
    requires
        0 <= i <= s.len(),
        all_digits(s),
    ensures
        0 <= digits_val(s.take(i)) <= digits_val(s),
    decreases s.len() - i,
{
    if i == s.len() {
        assert(s.take(i) =~= s);
        lemma_digits_val_nonneg(s);
    } else {
        lemma_digits_val_step(s, i);
        assert(all_digits(s.take(i)));
        lemma_digits_val_nonneg(s.take(i));
        lemma_digits_val_bounds(s, i + 1);
    }
}

/// A percentage that parses at all lies in 0 to 100: the parser never
/// hands out a value outside the renderer's domain.
pub proof fn lemma_parse_pct_in_range(t: Seq<char>)
    ensures
        parse_pct(t) matches Some(p) ==> 0 <= p <= 100,
{
    if parse_pct(t) is Some {
        lemma_digits_val_nonneg(strip_percent(t));
    }
}

/// A percentage extracted from a diagnostic line lies in 0 to 100.
pub proof fn lemma_parse_life_in_range(line: Seq<char>)
    ensures
        parse_life_spec(line) matches Some(p) ==> 0 <= p <= 100,
{
    let seg = line.take(find_from(line, ';', 0));
    let t2s = seek_from(
        seg,
        seek_from(seg, seek_from(seg, seek_from(seg, seek_from(seg, 0, false), true), false), true),
        false,
    );
    lemma_parse_pct_in_range(seg.subrange(t2s, seek_from(seg, t2s, true)));
}

/// Reads one token as a percentage: it must end in `%`; its trailing `%`
/// signs removed, the rest must be a nonempty string of digits whose
/// value is at most 100.
fn parse_token(t: &str) -> (r: Option<u8>)
    ensures
        r == parse_pct(t@),
{
    let n = t.unicode_len();
    let mut k = n;
    while k > 0 && t.get_char(k - 1) == '%'
        invariant
            k <= n,
            n as nat == t@.len(),
            forall|j: int| k as int <= j < n as int ==> t@[j] == '%',
        decreases k,
    {
        k = k - 1;
    }
    if k == n {
        // Nothing was stripped: the token is empty or does not end in `%`.
        return None;
    }
    proof {
        lemma_strip_percent_take(t@, k as int);
    }
    if k == 0 {
        return None;
    }
    let ghost d = strip_percent(t@);
    let mut val: u32 = 0;
    let mut i: usize = 0;
    while i < k
        invariant
            0 <= i <= k,
            k < n,
            n as nat == t@.len(),
            t@[n as int - 1] == '%',
            d == t@.take(k as int),
            d == strip_percent(t@),
            val <= 100,
            forall|j: int| 0 <= j < i as int ==> is_digit(#[trigger] t@[j]),
            val as int == digits_val(t@.take(i as int)),
        decreases k - i,
    {
        let c = t.get_char(i);
        let cv = c as u32;
        if cv < 48 || cv > 57 {
            proof {
                assert(!is_digit(d[i as int]));
            }
            return None;
        }
        proof {
            lemma_digits_val_step(t@, i as int);
        }
        val = val * 10 + (cv - 48);
        if val > 100 {
            proof {
                if all_digits(d) {
                    assert(d.take(i + 1) =~= t@.take(i + 1));
                    lemma_digits_val_bounds(d, i + 1);
                }
            }
            return None;
        }
        i = i + 1;
    }
    proof {
        assert(all_digits(d));
    }
    Some(val as u8)
}

/// Extracts the charge percentage from a diagnostic line, if the line
/// carries one.
pub fn parse_life(input: &str) -> (r: Option<u8>)
    ensures
        r == parse_life_spec(input@),
{
    let semi = find_char(input, 0, ';');
    let seg = input.substring_char(0, semi);
    proof {
        assert(seg@ =~= input@.take(find_from(input@, ';', 0)));
    }
    let t0s = seek_char(seg, 0, false);
    let t0e = seek_char(seg, t0s, true);
    let t1s = seek_char(seg, t0e, false);
    let t1e = seek_char(seg, t1s, true);
    let t2s = seek_char(seg, t1e, false);
    let n = seg.unicode_len();
    if t2s == n {
        return None;
    }
    let t2e = seek_char(seg, t2s, true);
    let token = seg.substring_char(t2s, t2e);
    parse_token(token)
}

} // verus!
