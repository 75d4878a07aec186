//! Cursor styles of the cursor track.

use vstd::prelude::*;

verus! {

#[derive(Debug, Clone, Copy, PartialEq, Eq, Structural, Hash)]
pub enum CursorStyle {
    Arrow,
    Pointer,
    IBeam,
    Crosshair,
    OpenHand,
    ClosedHand,
    ContextMenu,
}

pub open spec fn cursor_style_name(s: CursorStyle) -> Seq<char> {
    match s {
        CursorStyle::Arrow => "Arrow"@,
        CursorStyle::Pointer => "Pointer"@,
        CursorStyle::IBeam => "I-Beam"@,
        CursorStyle::Crosshair => "Crosshair"@,
        CursorStyle::OpenHand => "Open Hand"@,
        CursorStyle::ClosedHand => "Closed Hand"@,
        CursorStyle::ContextMenu => "Context Menu"@,
    }
}

impl CursorStyle {
    pub fn display_name(&self) -> (r: &'static str)
        ensures
            r@ == cursor_style_name(*self),
    {
        match self {
            CursorStyle::Arrow => "Arrow",
            CursorStyle::Pointer => "Pointer",
            CursorStyle::IBeam => "I-Beam",
            CursorStyle::Crosshair => "Crosshair",
            CursorStyle::OpenHand => "Open Hand",
            CursorStyle::ClosedHand => "Closed Hand",
            CursorStyle::ContextMenu => "Context Menu",
        }
    }
}

} // verus!
