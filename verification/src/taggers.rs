//! Category-specific recognizers over spoken-form spans.
//!
//! Each tagger exposes `parse(input) -> Option<String>`: the written form of
//! the span, or `None` when the tagger does not recognize it.

pub mod cardinal;
pub mod date;
pub mod decimal;
pub mod electronic;
pub mod measure;
pub mod money;
pub mod ordinal;
pub mod punctuation;
pub mod telephone;
pub mod time;
pub mod whitelist;
pub mod word;
