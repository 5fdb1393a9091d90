//! Reports a machine's power source: a classifier that turns the two-line
//! diagnostic text of a power-status query into a typed `PowerSource` value,
//! and a renderer that maps a charge percentage to one of ten display glyphs.

pub mod classify;
pub mod parse;
pub mod power;
pub mod render;
pub mod scan;

pub use classify::classify;
pub use parse::parse_life;
pub use power::PowerSource;
pub use render::render;
