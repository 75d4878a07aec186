//! Kinds of timeline tracks.

use vstd::prelude::*;

verus! {

/// Track type identifier.
#[derive(Debug, Clone, Copy, PartialEq, Eq, Structural, Hash)]
pub enum TrackType {
    Transform,
    Ripple,
    Cursor,
    Keystroke,
}

} // verus!
