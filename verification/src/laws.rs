//! Laws of the table of canonical names.
//!
//! Every law is a proof function: calling it makes its conclusion known to
//! the verifier.

use vstd::prelude::*;
use vstd::set_lib::lemma_map_size;
use crate::error::CursorIconParseError;
use crate::icon::CursorIcon;
use crate::parse::{is_canonical_name, spec_from_str};

verus! {

/// The set of all canonical names.
pub open spec fn canonical_names() -> Set<Seq<char>> {
    Set::new(|text: Seq<char>| is_canonical_name(text))
}

/// Whether `text` is made of lower-case ASCII words joined by single
/// hyphens: it is not empty, holds only the letters `a` to `z` and `-`,
/// neither starts nor ends with a hyphen, and has no two hyphens in a row.
pub open spec fn is_hyphenated_lowercase(text: Seq<char>) -> bool {
    &&& text.len() > 0
    &&& text[0] != '-'
    &&& text[text.len() - 1] != '-'
    &&& forall|i: int|
        0 <= i < text.len() ==> 'a' <= #[trigger] text[i] <= 'z' || text[i] == '-'
    &&& forall|i: int|
        0 <= i < text.len() - 1 ==> !(#[trigger] text[i] == '-' && text[i + 1] == '-')
}

/// The table of canonical names, character by character.
pub proof fn lemma_names_spelled_out()
    ensures
        CursorIcon::Default.spec_name() == seq!['d', 'e', 'f', 'a', 'u', 'l', 't'],
        CursorIcon::ContextMenu.spec_name() == seq![
            'c', 'o', 'n', 't', 'e', 'x', 't', '-', 'm', 'e', 'n', 'u',
        ],
        CursorIcon::Help.spec_name() == seq!['h', 'e', 'l', 'p'],
        CursorIcon::Pointer.spec_name() == seq!['p', 'o', 'i', 'n', 't', 'e', 'r'],
        CursorIcon::Progress.spec_name() == seq!['p', 'r', 'o', 'g', 'r', 'e', 's', 's'],
        CursorIcon::Wait.spec_name() == seq!['w', 'a', 'i', 't'],
        CursorIcon::Cell.spec_name() == seq!['c', 'e', 'l', 'l'],
        CursorIcon::Crosshair.spec_name() == seq!['c', 'r', 'o', 's', 's', 'h', 'a', 'i', 'r'],
        CursorIcon::Text.spec_name() == seq!['t', 'e', 'x', 't'],
        CursorIcon::VerticalText.spec_name() == seq![
            'v', 'e', 'r', 't', 'i', 'c', 'a', 'l', '-', 't', 'e', 'x', 't',
        ],
        CursorIcon::Alias.spec_name() == seq!['a', 'l', 'i', 'a', 's'],
        CursorIcon::Copy.spec_name() == seq!['c', 'o', 'p', 'y'],
        CursorIcon::Move.spec_name() == seq!['m', 'o', 'v', 'e'],
        CursorIcon::NoDrop.spec_name() == seq!['n', 'o', '-', 'd', 'r', 'o', 'p'],
        CursorIcon::NotAllowed.spec_name() == seq![
            'n', 'o', 't', '-', 'a', 'l', 'l', 'o', 'w', 'e', 'd',
        ],
        CursorIcon::Grab.spec_name() == seq!['g', 'r', 'a', 'b'],
        CursorIcon::Grabbing.spec_name() == seq!['g', 'r', 'a', 'b', 'b', 'i', 'n', 'g'],
        CursorIcon::EResize.spec_name() == seq!['e', '-', 'r', 'e', 's', 'i', 'z', 'e'],
        CursorIcon::NResize.spec_name() == seq!['n', '-', 'r', 'e', 's', 'i', 'z', 'e'],
        CursorIcon::NeResize.spec_name() == seq!['n', 'e', '-', 'r', 'e', 's', 'i', 'z', 'e'],
        CursorIcon::NwResize.spec_name() == seq!['n', 'w', '-', 'r', 'e', 's', 'i', 'z', 'e'],
        CursorIcon::SResize.spec_name() == seq!['s', '-', 'r', 'e', 's', 'i', 'z', 'e'],
        CursorIcon::SeResize.spec_name() == seq!['s', 'e', '-', 'r', 'e', 's', 'i', 'z', 'e'],
        CursorIcon::SwResize.spec_name() == seq!['s', 'w', '-', 'r', 'e', 's', 'i', 'z', 'e'],
        CursorIcon::WResize.spec_name() == seq!['w', '-', 'r', 'e', 's', 'i', 'z', 'e'],
        CursorIcon::EwResize.spec_name() == seq!['e', 'w', '-', 'r', 'e', 's', 'i', 'z', 'e'],
        CursorIcon::NsResize.spec_name() == seq!['n', 's', '-', 'r', 'e', 's', 'i', 'z', 'e'],
        CursorIcon::NeswResize.spec_name() == seq![
            'n', 'e', 's', 'w', '-', 'r', 'e', 's', 'i', 'z', 'e',
        ],
        CursorIcon::NwseResize.spec_name() == seq![
            'n', 'w', 's', 'e', '-', 'r', 'e', 's', 'i', 'z', 'e',
        ],
        CursorIcon::ColResize.spec_name() == seq!['c', 'o', 'l', '-', 'r', 'e', 's', 'i', 'z', 'e'],
        CursorIcon::RowResize.spec_name() == seq!['r', 'o', 'w', '-', 'r', 'e', 's', 'i', 'z', 'e'],
        CursorIcon::AllScroll.spec_name() == seq!['a', 'l', 'l', '-', 's', 'c', 'r', 'o', 'l', 'l'],
        CursorIcon::ZoomIn.spec_name() == seq!['z', 'o', 'o', 'm', '-', 'i', 'n'],
        CursorIcon::ZoomOut.spec_name() == seq!['z', 'o', 'o', 'm', '-', 'o', 'u', 't'],
{
    reveal_strlit("default");
    reveal_strlit("context-menu");
    reveal_strlit("help");
    reveal_strlit("pointer");
    reveal_strlit("progress");
    reveal_strlit("wait");
    reveal_strlit("cell");
    reveal_strlit("crosshair");
    reveal_strlit("text");
    reveal_strlit("vertical-text");
    reveal_strlit("alias");
    reveal_strlit("copy");
    reveal_strlit("move");
    reveal_strlit("no-drop");
    reveal_strlit("not-allowed");
    reveal_strlit("grab");
    reveal_strlit("grabbing");
    reveal_strlit("e-resize");
    reveal_strlit("n-resize");
    reveal_strlit("ne-resize");
    reveal_strlit("nw-resize");
    reveal_strlit("s-resize");
    reveal_strlit("se-resize");
    reveal_strlit("sw-resize");
    reveal_strlit("w-resize");
    reveal_strlit("ew-resize");
    reveal_strlit("ns-resize");
    reveal_strlit("nesw-resize");
    reveal_strlit("nwse-resize");
    reveal_strlit("col-resize");
    reveal_strlit("row-resize");
    reveal_strlit("all-scroll");
    reveal_strlit("zoom-in");
    reveal_strlit("zoom-out");
}

/// No two cursor icons share a canonical name.
pub proof fn lemma_name_injective(a: CursorIcon, b: CursorIcon)
    requires
        a.spec_name() == b.spec_name(),
    ensures
        a == b,
{
    if a != b {
        lemma_names_differ(a, b);
    }
}

/// The names of two different icons differ in their length or in one of
/// their first two characters.
proof fn lemma_names_differ(a: CursorIcon, b: CursorIcon)
    requires
        a != b,
    ensures
        a.spec_name().len() != b.spec_name().len()
            || a.spec_name()[0] != b.spec_name()[0]
            || a.spec_name()[1] != b.spec_name()[1],
{
    lemma_names_spelled_out();
}

/// Every canonical name is made of lower-case ASCII words joined by single
/// hyphens, and is between 4 and 13 characters long.
pub proof fn lemma_name_shape(icon: CursorIcon)
    ensures
        is_hyphenated_lowercase(icon.spec_name()),
        4 <= icon.spec_name().len() <= 13,
{
    lemma_names_spelled_out();
}

/// Parsing the canonical name of an icon gives that icon back.
pub proof fn lemma_parse_name_round_trip(icon: CursorIcon)
    ensures
        spec_from_str(icon.spec_name()) == Ok::<CursorIcon, CursorIconParseError>(icon),
{
    let text = icon.spec_name();
    assert(is_canonical_name(text));
    lemma_name_injective(choose|other: CursorIcon| other.spec_name() == text, icon);
}

/// Parsing is the exact inverse of naming: a text parses to an icon if and
/// only if it is that icon's canonical name.
pub proof fn lemma_parse_inverts_name(text: Seq<char>, icon: CursorIcon)
    ensures
        spec_from_str(text) == Ok::<CursorIcon, CursorIconParseError>(icon) <==> icon.spec_name()
            == text,
{
    if icon.spec_name() == text {
        lemma_parse_name_round_trip(icon);
    }
}

/// There are exactly 34 cursor icons.
pub proof fn lemma_icon_count()
    ensures
        Set::<CursorIcon>::full().finite(),
        Set::<CursorIcon>::full().len() == 34,
{
    let listed: Set<CursorIcon> = set![
        CursorIcon::Default,
        CursorIcon::ContextMenu,
        CursorIcon::Help,
        CursorIcon::Pointer,
        CursorIcon::Progress,
        CursorIcon::Wait,
        CursorIcon::Cell,
        CursorIcon::Crosshair,
        CursorIcon::Text,
        CursorIcon::VerticalText,
        CursorIcon::Alias,
        CursorIcon::Copy,
        CursorIcon::Move,
        CursorIcon::NoDrop,
        CursorIcon::NotAllowed,
        CursorIcon::Grab,
        CursorIcon::Grabbing,
        CursorIcon::EResize,
        CursorIcon::NResize,
        CursorIcon::NeResize,
        CursorIcon::NwResize,
        CursorIcon::SResize,
        CursorIcon::SeResize,
        CursorIcon::SwResize,
        CursorIcon::WResize,
        CursorIcon::EwResize,
        CursorIcon::NsResize,
        CursorIcon::NeswResize,
        CursorIcon::NwseResize,
        CursorIcon::ColResize,
        CursorIcon::RowResize,
        CursorIcon::AllScroll,
        CursorIcon::ZoomIn,
        CursorIcon::ZoomOut,
    ];
    assert(listed =~= Set::<CursorIcon>::full());
}

/// There are exactly 34 canonical names, one for each cursor icon.
pub proof fn lemma_canonical_name_count()
    ensures
        canonical_names().finite(),
        canonical_names().len() == 34,
{
    let icons = Set::<CursorIcon>::full();
    let name_of = |icon: CursorIcon| icon.spec_name();
    lemma_icon_count();
    assert forall|a: CursorIcon, b: CursorIcon| #[trigger]
        name_of(a) == #[trigger] name_of(b) implies a == b by {
        lemma_name_injective(a, b);
    }
    assert forall|text: Seq<char>|
        icons.map(name_of).contains(text) == canonical_names().contains(text) by {
        if icons.map(name_of).contains(text) {
            let icon = choose|icon: CursorIcon| icons.contains(icon) && text == name_of(icon);
            assert(icon.spec_name() == text);
        }
        if canonical_names().contains(text) {
            let icon = choose|icon: CursorIcon| icon.spec_name() == text;
            assert(icons.contains(icon) && text == name_of(icon));
        }
    }
    assert(icons.map(name_of) =~= canonical_names());
    lemma_map_size(icons, canonical_names(), name_of);
}

} // verus!
