//! The `PowerSource` value: what the classifier produces, and how a value
//! is displayed (the glyph of a battery's percentage, nothing otherwise).

use vstd::prelude::*;

use crate::render::{glyph_of, render};

verus! {

/// The mathematical model of a `PowerSource`: a battery's charge
/// percentage, another source's label characters, or nothing recognized.
pub enum SourceModel {
    Battery(u8),
    Other(Seq<char>),
    Unknown,
}

/// The power source a parse produced: running on the internal battery with
/// a charge percentage, drawing from another named source, or unrecognized
/// input.
#[derive(Debug)]
pub enum PowerSource {
    Battery(u8),
    Other(String),
    Unknown,
}

impl View for PowerSource {
    type V = SourceModel;

    open spec fn view(&self) -> SourceModel {
        match self {
            PowerSource::Battery(p) => SourceModel::Battery(*p),
            PowerSource::Other(name) => SourceModel::Other(name@),
            PowerSource::Unknown => SourceModel::Unknown,
        }
    }
}

impl PartialEq for PowerSource {
    fn eq(&self, other: &PowerSource) -> (r: bool) {
        match (self, other) {
            (PowerSource::Battery(a), PowerSource::Battery(b)) => *a == *b,
            (PowerSource::Other(x), PowerSource::Other(y)) => *x == *y,
            (PowerSource::Unknown, PowerSource::Unknown) => true,
            _ => false,
        }
    }
}

impl vstd::std_specs::cmp::PartialEqSpecImpl for PowerSource {
    open spec fn obeys_eq_spec() -> bool {
        true
    }

    open spec fn eq_spec(&self, other: &PowerSource) -> bool {
        self@ == other@
    }
}

impl Eq for PowerSource {}

/// The characters displayed for a power source: the glyph of a battery's
/// charge percentage, nothing for any other source.
pub open spec fn display_of(m: SourceModel) -> Seq<char> {
    match m {
        SourceModel::Battery(p) => seq![glyph_of(p as int)],
        _ => Seq::<char>::empty(),
    }
}

/// Relies on `String::from`: the string holding the one character given.
#[verifier::external_body]
fn char_string(c: char) -> (r: String)
    ensures
        r@ == seq![c],
{
    String::from(c)
}

impl PowerSource {
    /// The text displayed for this source: the rendered glyph when running
    /// on battery, the empty string otherwise.
    pub fn display_string(&self) -> (r: String)
        ensures
            r@ == display_of(self@),
    {
        match self {
            PowerSource::Battery(p) => char_string(render(*p)),
            _ => String::new(),
        }
    }
}

} // verus!
