//! The classifier: turns the raw diagnostic text into a `PowerSource`.
//! Line one names the current source between single quotes; line two
//! carries the charge percentage. Any input of another shape degrades to
//! `PowerSource::Unknown` rather than failing.

use vstd::prelude::*;

use crate::parse::{parse_life, parse_life_spec};
use crate::power::{PowerSource, SourceModel};
use crate::scan::{find_char, find_from};

verus! {

/// The index of the first line break, or the whole length when the input
/// is a single line.
pub open spec fn first_line_end(s: Seq<char>) -> int {
    find_from(s, '\n', 0)
}

/// Whether the input has a second line to read the percentage from.
pub open spec fn has_two_lines(s: Seq<char>) -> bool {
    first_line_end(s) < s.len()
}

/// The first line of the input.
pub open spec fn line_one(s: Seq<char>) -> Seq<char> {
    s.take(first_line_end(s))
}

/// The second line of the input.
pub open spec fn line_two(s: Seq<char>) -> Seq<char>
    recommends
        has_two_lines(s),
{
    s.subrange(first_line_end(s) + 1, find_from(s, '\n', first_line_end(s) + 1))
}

/// The source label of a line: the text after the first single quote, up
/// to the next single quote or the end of the line; absent when the line
/// has no single quote.
pub open spec fn label_of(line: Seq<char>) -> Option<Seq<char>> {
    let q1 = find_from(line, '\'', 0);
    if q1 == line.len() {
        None
    } else {
        Some(line.subrange(q1 + 1, find_from(line, '\'', q1 + 1)))
    }
}

/// The label that marks the internal battery as the current source.
pub open spec fn battery_label() -> Seq<char> {
    "Battery Power"@
}

/// What classification the input deserves: `Unknown` unless the input has
/// two lines, the second line carries a percentage and the first line
/// carries a label; then `Battery` with that percentage when the label is
/// `Battery Power`, and `Other` with the label otherwise.
pub open spec fn classify_spec(s: Seq<char>) -> SourceModel {
    if !has_two_lines(s) {
        SourceModel::Unknown
    } else {
        match parse_life_spec(line_two(s)) {
            None => SourceModel::Unknown,
            Some(p) => match label_of(line_one(s)) {
                None => SourceModel::Unknown,
                Some(l) => if l == battery_label() {
                    SourceModel::Battery(p)
                } else {
                    SourceModel::Other(l)
                },
            },
        }
    }
}

/// Whether a label reads exactly `Battery Power`.
fn is_battery_label(s: &str) -> (r: bool)
    ensures
        r == (s@ == battery_label()),
{
    let t = "Battery Power";
    proof {
        reveal_strlit("Battery Power");
    }
    let n = s.unicode_len();
    if n != 13 {
        return false;
    }
    let mut i: usize = 0;
    while i < 13
        invariant
            0 <= i <= 13,
            n as nat == s@.len(),
            n == 13,
            t@ == battery_label(),
            t@.len() == 13,
            forall|j: int| 0 <= j < i as int ==> s@[j] == t@[j],
        decreases 13 - i,
    {
        if s.get_char(i) != t.get_char(i) {
            return false;
        }
        i = i + 1;
    }
    proof {
        assert(s@ =~= t@);
    }
    true
}

/// Classifies the diagnostic text. Never fails: input of an unexpected
/// shape yields `PowerSource::Unknown`.
pub fn classify(input: &str) -> (r: PowerSource)
    ensures
        r@ == classify_spec(input@),
{
    let n = input.unicode_len();
    let nl = find_char(input, 0, '\n');
    if nl == n {
        return PowerSource::Unknown;
    }
    let line1 = input.substring_char(0, nl);
    let nl2 = find_char(input, nl + 1, '\n');
    let line2 = input.substring_char(nl + 1, nl2);
    proof {
        assert(line1@ =~= line_one(input@));
        assert(line2@ =~= line_two(input@));
    }
    match parse_life(line2) {
        None => PowerSource::Unknown,
        Some(p) => {
            let m = line1.unicode_len();
            let q1 = find_char(line1, 0, '\'');
            if q1 == m {
                return PowerSource::Unknown;
            }
            let q2 = find_char(line1, q1 + 1, '\'');
            let label = line1.substring_char(q1 + 1, q2);
            if is_battery_label(label) {
                PowerSource::Battery(p)
            } else {
                PowerSource::Other(label.to_owned())
            }
        },
    }
}

/// Well-formed two-line input whose label is `Battery Power` and whose
/// second line carries the valid percentage `p` classifies as exactly
/// `Battery(p)`.
pub proof fn lemma_classify_battery(s: Seq<char>, p: u8)
    requires
        has_two_lines(s),
        parse_life_spec(line_two(s)) == Some(p),
        label_of(line_one(s)) == Some(battery_label()),
    ensures
        classify_spec(s) == SourceModel::Battery(p),
{
}

/// Well-formed two-line input with any other quoted label `l` and a valid
/// percentage classifies as exactly `Other(l)`.
pub proof fn lemma_classify_other(s: Seq<char>, p: u8, l: Seq<char>)
    requires
        has_two_lines(s),
        parse_life_spec(line_two(s)) == Some(p),
        label_of(line_one(s)) == Some(l),
        l != battery_label(),
    ensures
        classify_spec(s) == SourceModel::Other(l),
{
}

/// Input whose second line carries no readable percentage classifies as
/// `Unknown`, whatever the first line's label.
pub proof fn lemma_classify_needs_percentage(s: Seq<char>)
    requires
        parse_life_spec(line_two(s)) is None,
    ensures
        classify_spec(s) == SourceModel::Unknown,
{
}

/// Input with fewer than two lines classifies as `Unknown`: no line break
/// at all, or one only at the very end.
pub proof fn lemma_classify_needs_two_lines(s: Seq<char>)
    requires
        !has_two_lines(s) || first_line_end(s) == s.len() - 1,
    ensures
        classify_spec(s) == SourceModel::Unknown,
{
    if has_two_lines(s) {
        assert(line_two(s) =~= Seq::<char>::empty());
        assert(parse_life_spec(line_two(s)) is None);
    }
}

/// A battery classification always carries a percentage in 0 to 100: the
/// renderer's domain.
pub proof fn lemma_classify_battery_in_range(s: Seq<char>)
    ensures
        classify_spec(s) matches SourceModel::Battery(p) ==> 0 <= p <= 100,
{
    if has_two_lines(s) {
        crate::parse::lemma_parse_life_in_range(line_two(s));
    }
}

} // verus!
