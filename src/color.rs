//! The foreground color of the strip, a value of the terminal framework that
//! this library carries through.
use vstd::prelude::*;

verus! {

/// ratatui's `Color`, with its variants visible so that contracts can name them.
#[verifier::external_type_specification]
pub struct ExColor(ratatui::style::Color);

/// Relies on ratatui's derived `Default` for `Color`, whose `#[default]`
/// variant is `Reset`.
pub assume_specification[ <ratatui::style::Color as core::default::Default>::default ]() -> (r: ratatui::style::Color)
    ensures
        r == ratatui::style::Color::Reset,
;

} // verus!
