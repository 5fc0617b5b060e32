//! What the user can set.
use vstd::prelude::*;

verus! {

/// The shortest limit that can be set for the labels of the panel.
pub const LABEL_LENGTH_MIN: u32 = 10;

/// The longest limit that can be set for the labels of the panel.
pub const LABEL_LENGTH_MAX: u32 = 100;

/// The step in which that limit is set.
pub const LABEL_LENGTH_STEP: u32 = 1;

#[derive(Debug, Clone, Copy, PartialEq, Eq, Structural)]
pub struct Config {
    /// The longest label in the panel, in characters.
    pub panel_label_max_length: u32,
    /// Whether the track stands before the artist.
    pub track_first: bool,
}

} // verus!
