//! The renderer: maps a charge percentage to one of ten display glyphs,
//! each standing for a ten-point charge bucket.

use vstd::prelude::*;

verus! {

// The ten glyphs, one per bucket, from faint to full.
pub const TEN: char = '_';

pub const TWENTY: char = '.';

pub const THIRTY: char = ':';

pub const FORTY: char = '-';

pub const FIFTY: char = '=';

pub const SIXTY: char = '+';

pub const SEVENTY: char = '*';

pub const EIGHTY: char = '#';

pub const NINETY: char = '%';

pub const HUNDRED: char = '@';

/// The bucket a percentage falls in: ten contiguous ranges of width ten
/// starting at 0 (with 0 folding into the lowest bucket), and everything
/// above 90 in the top bucket.
pub open spec fn bucket(p: int) -> int {
    if p <= 10 {
        0
    } else if p <= 20 {
        1
    } else if p <= 30 {
        2
    } else if p <= 40 {
        3
    } else if p <= 50 {
        4
    } else if p <= 60 {
        5
    } else if p <= 70 {
        6
    } else if p <= 80 {
        7
    } else if p <= 90 {
        8
    } else {
        9
    }
}

/// The glyph displayed for a bucket.
pub open spec fn bucket_glyph(b: int) -> char {
    if b == 0 {
        TEN
    } else if b == 1 {
        TWENTY
    } else if b == 2 {
        THIRTY
    } else if b == 3 {
        FORTY
    } else if b == 4 {
        FIFTY
    } else if b == 5 {
        SIXTY
    } else if b == 6 {
        SEVENTY
    } else if b == 7 {
        EIGHTY
    } else if b == 8 {
        NINETY
    } else {
        HUNDRED
    }
}

/// The glyph displayed for a percentage.
pub open spec fn glyph_of(p: int) -> char {
    bucket_glyph(bucket(p))
}

/// Maps a charge percentage to its display glyph. Total: any value above
/// 100 falls into the top bucket as a safety default.
pub fn render(percentage: u8) -> (glyph: char)
    ensures
        glyph == glyph_of(percentage as int),
{
    if percentage <= 10 {
        TEN
    } else if percentage <= 20 {
        TWENTY
    } else if percentage <= 30 {
        THIRTY
    } else if percentage <= 40 {
        FORTY
    } else if percentage <= 50 {
        FIFTY
    } else if percentage <= 60 {
        SIXTY
    } else if percentage <= 70 {
        SEVENTY
    } else if percentage <= 80 {
        EIGHTY
    } else if percentage <= 90 {
        NINETY
    } else {
        HUNDRED
    }
}

/// The renderer is total: every percentage lands in exactly one of the ten
/// buckets, and its glyph is that bucket's glyph.
pub proof fn lemma_render_total(p: int)
    ensures
        0 <= bucket(p) <= 9,
        glyph_of(p) == bucket_glyph(bucket(p)),
{
}

/// Distinct buckets display distinct glyphs, so exactly one of the ten
/// glyphs is returned for any percentage.
pub proof fn lemma_glyphs_distinct(i: int, j: int)
    requires
        0 <= i <= 9,
        0 <= j <= 9,
        i != j,
    ensures
        bucket_glyph(i) != bucket_glyph(j),
{
}

/// The renderer is monotonic: a higher percentage never falls in a lower
/// bucket.
pub proof fn lemma_render_monotonic(p: int, q: int)
    requires
        p <= q,
    ensures
        bucket(p) <= bucket(q),
{
}

/// Between consecutive percentages the glyph changes exactly at the bucket
/// boundaries 10/11, 20/21, ..., 90/91, and each such step crosses exactly
/// one bucket.
pub proof fn lemma_render_boundary(p: int)
    requires
        0 <= p < 100,
    ensures
        bucket(p + 1) - bucket(p) == if 10 <= p <= 90 && p % 10 == 0 {
            1int
        } else {
            0int
        },
        (glyph_of(p + 1) != glyph_of(p)) <==> (10 <= p <= 90 && p % 10 == 0),
{
    lemma_render_total(p);
    lemma_render_total(p + 1);
    if bucket(p) != bucket(p + 1) {
        lemma_glyphs_distinct(bucket(p), bucket(p + 1));
    }
}

} // verus!
