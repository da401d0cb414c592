//! The cursor icon type and its table of canonical names.

use vstd::prelude::*;

verus! {

/// Describes the appearance of the (usually mouse) cursor icon.
///
/// The set of icons is closed. Each icon stands for one cursor keyword of
/// the CSS user interface module, and that keyword is its canonical name:
/// see [`CursorIcon::spec_name`].
///
/// Equality is written out below so that it is verified; the derived hash
/// goes by the variant alone, as that equality does.
#[allow(clippy::derived_hash_with_manual_eq)]
#[derive(Debug, Copy, Clone, Eq, Hash)]
pub enum CursorIcon {
    /// The platform's default cursor, usually an arrow.
    Default,
    /// A context menu is available for the object under the cursor.
    ContextMenu,
    /// Help is available for the object under the cursor.
    Help,
    /// The cursor is over a link, usually shown as a pointing hand.
    Pointer,
    /// The program is busy in the background, but the user may still interact with it.
    Progress,
    /// The program is busy and the user should wait.
    Wait,
    /// A cell or a set of cells may be selected.
    Cell,
    /// A simple crosshair, often used for selecting a region of a bitmap.
    Crosshair,
    /// Text may be selected, usually shown as an I-beam.
    Text,
    /// Vertical text may be selected, usually shown as a horizontal I-beam.
    VerticalText,
    /// An alias of, or a shortcut to, something is to be created.
    Alias,
    /// Something is to be copied.
    Copy,
    /// Something is to be moved.
    Move,
    /// The dragged item cannot be dropped at the current position.
    NoDrop,
    /// The requested action will not be carried out.
    NotAllowed,
    /// Something can be grabbed and dragged.
    Grab,
    /// Something is being grabbed and dragged.
    Grabbing,
    /// The east edge is to be moved.
    EResize,
    /// The north edge is to be moved.
    NResize,
    /// The north-east corner is to be moved.
    NeResize,
    /// The north-west corner is to be moved.
    NwResize,
    /// The south edge is to be moved.
    SResize,
    /// The south-east corner is to be moved.
    SeResize,
    /// The south-west corner is to be moved.
    SwResize,
    /// The west edge is to be moved.
    WResize,
    /// The east and west edges are to be moved.
    EwResize,
    /// The north and south edges are to be moved.
    NsResize,
    /// The north-east and south-west corners are to be moved.
    NeswResize,
    /// The north-west and south-east corners are to be moved.
    NwseResize,
    /// A column can be resized horizontally.
    ColResize,
    /// A row can be resized vertically.
    RowResize,
    /// Something can be scrolled in any direction.
    AllScroll,
    /// Something can be zoomed in.
    ZoomIn,
    /// Something can be zoomed out.
    ZoomOut,
}

impl CursorIcon {
    /// The canonical name of each icon: lower-case ASCII words joined by
    /// hyphens, spelled exactly as the CSS keyword.
    pub open spec fn spec_name(self) -> Seq<char> {
        match self {
            CursorIcon::Default => "default"@,
            CursorIcon::ContextMenu => "context-menu"@,
            CursorIcon::Help => "help"@,
            CursorIcon::Pointer => "pointer"@,
            CursorIcon::Progress => "progress"@,
            CursorIcon::Wait => "wait"@,
            CursorIcon::Cell => "cell"@,
            CursorIcon::Crosshair => "crosshair"@,
            CursorIcon::Text => "text"@,
            CursorIcon::VerticalText => "vertical-text"@,
            CursorIcon::Alias => "alias"@,
            CursorIcon::Copy => "copy"@,
            CursorIcon::Move => "move"@,
            CursorIcon::NoDrop => "no-drop"@,
            CursorIcon::NotAllowed => "not-allowed"@,
            CursorIcon::Grab => "grab"@,
            CursorIcon::Grabbing => "grabbing"@,
            CursorIcon::EResize => "e-resize"@,
            CursorIcon::NResize => "n-resize"@,
            CursorIcon::NeResize => "ne-resize"@,
            CursorIcon::NwResize => "nw-resize"@,
            CursorIcon::SResize => "s-resize"@,
            CursorIcon::SeResize => "se-resize"@,
            CursorIcon::SwResize => "sw-resize"@,
            CursorIcon::WResize => "w-resize"@,
            CursorIcon::EwResize => "ew-resize"@,
            CursorIcon::NsResize => "ns-resize"@,
            CursorIcon::NeswResize => "nesw-resize"@,
            CursorIcon::NwseResize => "nwse-resize"@,
            CursorIcon::ColResize => "col-resize"@,
            CursorIcon::RowResize => "row-resize"@,
            CursorIcon::AllScroll => "all-scroll"@,
            CursorIcon::ZoomIn => "zoom-in"@,
            CursorIcon::ZoomOut => "zoom-out"@,
        }
    }

    /// The name of the cursor icon as the CSS keyword spells it.
    ///
    /// The name can mostly be handed as it is to cursor loading libraries
    /// and to the web.
    pub fn name(&self) -> (text: &'static str)
        ensures
            text@ == self.spec_name(),
    {
        match self {
            CursorIcon::Default => "default",
            CursorIcon::ContextMenu => "context-menu",
            CursorIcon::Help => "help",
            CursorIcon::Pointer => "pointer",
            CursorIcon::Progress => "progress",
            CursorIcon::Wait => "wait",
            CursorIcon::Cell => "cell",
            CursorIcon::Crosshair => "crosshair",
            CursorIcon::Text => "text",
            CursorIcon::VerticalText => "vertical-text",
            CursorIcon::Alias => "alias",
            CursorIcon::Copy => "copy",
            CursorIcon::Move => "move",
            CursorIcon::NoDrop => "no-drop",
            CursorIcon::NotAllowed => "not-allowed",
            CursorIcon::Grab => "grab",
            CursorIcon::Grabbing => "grabbing",
            CursorIcon::EResize => "e-resize",
            CursorIcon::NResize => "n-resize",
            CursorIcon::NeResize => "ne-resize",
            CursorIcon::NwResize => "nw-resize",
            CursorIcon::SResize => "s-resize",
            CursorIcon::SeResize => "se-resize",
            CursorIcon::SwResize => "sw-resize",
            CursorIcon::WResize => "w-resize",
            CursorIcon::EwResize => "ew-resize",
            CursorIcon::NsResize => "ns-resize",
            CursorIcon::NeswResize => "nesw-resize",
            CursorIcon::NwseResize => "nwse-resize",
            CursorIcon::ColResize => "col-resize",
            CursorIcon::RowResize => "row-resize",
            CursorIcon::AllScroll => "all-scroll",
            CursorIcon::ZoomIn => "zoom-in",
            CursorIcon::ZoomOut => "zoom-out",
        }
    }
}

impl PartialEq for CursorIcon {
    /// Two icons are equal exactly when they are the same variant.
    fn eq(&self, other: &CursorIcon) -> (same: bool) {
        match (self, other) {
            (CursorIcon::Default, CursorIcon::Default) => true,
            (CursorIcon::ContextMenu, CursorIcon::ContextMenu) => true,
            (CursorIcon::Help, CursorIcon::Help) => true,
            (CursorIcon::Pointer, CursorIcon::Pointer) => true,
            (CursorIcon::Progress, CursorIcon::Progress) => true,
            (CursorIcon::Wait, CursorIcon::Wait) => true,
            (CursorIcon::Cell, CursorIcon::Cell) => true,
            (CursorIcon::Crosshair, CursorIcon::Crosshair) => true,
            (CursorIcon::Text, CursorIcon::Text) => true,
            (CursorIcon::VerticalText, CursorIcon::VerticalText) => true,
            (CursorIcon::Alias, CursorIcon::Alias) => true,
            (CursorIcon::Copy, CursorIcon::Copy) => true,
            (CursorIcon::Move, CursorIcon::Move) => true,
            (CursorIcon::NoDrop, CursorIcon::NoDrop) => true,
            (CursorIcon::NotAllowed, CursorIcon::NotAllowed) => true,
            (CursorIcon::Grab, CursorIcon::Grab) => true,
            (CursorIcon::Grabbing, CursorIcon::Grabbing) => true,
            (CursorIcon::EResize, CursorIcon::EResize) => true,
            (CursorIcon::NResize, CursorIcon::NResize) => true,
            (CursorIcon::NeResize, CursorIcon::NeResize) => true,
            (CursorIcon::NwResize, CursorIcon::NwResize) => true,
            (CursorIcon::SResize, CursorIcon::SResize) => true,
            (CursorIcon::SeResize, CursorIcon::SeResize) => true,
            (CursorIcon::SwResize, CursorIcon::SwResize) => true,
            (CursorIcon::WResize, CursorIcon::WResize) => true,
            (CursorIcon::EwResize, CursorIcon::EwResize) => true,
            (CursorIcon::NsResize, CursorIcon::NsResize) => true,
            (CursorIcon::NeswResize, CursorIcon::NeswResize) => true,
            (CursorIcon::NwseResize, CursorIcon::NwseResize) => true,
            (CursorIcon::ColResize, CursorIcon::ColResize) => true,
            (CursorIcon::RowResize, CursorIcon::RowResize) => true,
            (CursorIcon::AllScroll, CursorIcon::AllScroll) => true,
            (CursorIcon::ZoomIn, CursorIcon::ZoomIn) => true,
            (CursorIcon::ZoomOut, CursorIcon::ZoomOut) => true,
            _ => false,
        }
    }
}

impl vstd::std_specs::cmp::PartialEqSpecImpl for CursorIcon {
    open spec fn obeys_eq_spec() -> bool {
        true
    }

    open spec fn eq_spec(&self, other: &CursorIcon) -> bool {
        *self == *other
    }
}

impl Default for CursorIcon {
    /// The icon to use where none was chosen: [`CursorIcon::Default`], the
    /// one named `default`.
    fn default() -> (icon: CursorIcon)
        ensures
            icon == CursorIcon::Default,
            icon.spec_name() == "default"@,
    {
        CursorIcon::Default
    }
}

} // verus!
