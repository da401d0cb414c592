//! Parsing a canonical name back into its cursor icon.

use vstd::prelude::*;
use crate::error::CursorIconParseError;
use crate::icon::CursorIcon;
use crate::laws::lemma_name_injective;
use crate::text::str_eq;

verus! {

/// Whether `text` is the canonical name of some cursor icon.
pub open spec fn is_canonical_name(text: Seq<char>) -> bool {
    exists|icon: CursorIcon| icon.spec_name() == text
}

/// What parsing `text` gives: the icon whose canonical name is exactly
/// `text`, or the parse error where no icon has that name.
///
/// No two icons share a name (see [`lemma_name_injective`]), so the icon is
/// the only one with that name.
pub open spec fn spec_from_str(text: Seq<char>) -> Result<CursorIcon, CursorIconParseError> {
    if is_canonical_name(text) {
        Ok(choose|icon: CursorIcon| icon.spec_name() == text)
    } else {
        Err(CursorIconParseError)
    }
}

impl core::str::FromStr for CursorIcon {
    type Err = CursorIconParseError;

    /// Parses a canonical name.
    ///
    /// The match is exact: character for character, with no trimming, no
    /// case folding and no abbreviations. Every other text is an error.
    fn from_str(name: &str) -> (parsed: Result<CursorIcon, CursorIconParseError>)
        ensures
            parsed == spec_from_str(name@),
            parsed is Ok <==> is_canonical_name(name@),
            parsed matches Ok(icon) ==> icon.spec_name() == name@,
    {
        let parsed = if str_eq(name, "default") {
            Ok(CursorIcon::Default)
        } else if str_eq(name, "context-menu") {
            Ok(CursorIcon::ContextMenu)
        } else if str_eq(name, "help") {
            Ok(CursorIcon::Help)
        } else if str_eq(name, "pointer") {
            Ok(CursorIcon::Pointer)
        } else if str_eq(name, "progress") {
            Ok(CursorIcon::Progress)
        } else if str_eq(name, "wait") {
            Ok(CursorIcon::Wait)
        } else if str_eq(name, "cell") {
            Ok(CursorIcon::Cell)
        } else if str_eq(name, "crosshair") {
            Ok(CursorIcon::Crosshair)
        } else if str_eq(name, "text") {
            Ok(CursorIcon::Text)
        } else if str_eq(name, "vertical-text") {
            Ok(CursorIcon::VerticalText)
        } else if str_eq(name, "alias") {
            Ok(CursorIcon::Alias)
        } else if str_eq(name, "copy") {
            Ok(CursorIcon::Copy)
        } else if str_eq(name, "move") {
            Ok(CursorIcon::Move)
        } else if str_eq(name, "no-drop") {
            Ok(CursorIcon::NoDrop)
        } else if str_eq(name, "not-allowed") {
            Ok(CursorIcon::NotAllowed)
        } else if str_eq(name, "grab") {
            Ok(CursorIcon::Grab)
        } else if str_eq(name, "grabbing") {
            Ok(CursorIcon::Grabbing)
        } else if str_eq(name, "e-resize") {
            Ok(CursorIcon::EResize)
        } else if str_eq(name, "n-resize") {
            Ok(CursorIcon::NResize)
        } else if str_eq(name, "ne-resize") {
            Ok(CursorIcon::NeResize)
        } else if str_eq(name, "nw-resize") {
            Ok(CursorIcon::NwResize)
        } else if str_eq(name, "s-resize") {
            Ok(CursorIcon::SResize)
        } else if str_eq(name, "se-resize") {
            Ok(CursorIcon::SeResize)
        } else if str_eq(name, "sw-resize") {
            Ok(CursorIcon::SwResize)
        } else if str_eq(name, "w-resize") {
            Ok(CursorIcon::WResize)
        } else if str_eq(name, "ew-resize") {
            Ok(CursorIcon::EwResize)
        } else if str_eq(name, "ns-resize") {
            Ok(CursorIcon::NsResize)
        } else if str_eq(name, "nesw-resize") {
            Ok(CursorIcon::NeswResize)
        } else if str_eq(name, "nwse-resize") {
            Ok(CursorIcon::NwseResize)
        } else if str_eq(name, "col-resize") {
            Ok(CursorIcon::ColResize)
        } else if str_eq(name, "row-resize") {
            Ok(CursorIcon::RowResize)
        } else if str_eq(name, "all-scroll") {
            Ok(CursorIcon::AllScroll)
        } else if str_eq(name, "zoom-in") {
            Ok(CursorIcon::ZoomIn)
        } else if str_eq(name, "zoom-out") {
            Ok(CursorIcon::ZoomOut)
        } else {
            Err(CursorIconParseError)
        };
        proof {
            if let Ok(icon) = parsed {
                assert(icon.spec_name() == name@);
                lemma_name_injective(choose|other: CursorIcon| other.spec_name() == name@, icon);
            }
        }
        parsed
    }
}

} // verus!
