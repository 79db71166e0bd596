use vstd::prelude::*;

pub mod alphabet;
pub mod laws;
pub mod menu;
pub mod model;
pub mod network;
pub mod text;
pub mod text_laws;

verus! {

/// Number of text lines that fit on the display at once.
pub const LINES_PER_SCREEN: usize = 5;

} // verus!
