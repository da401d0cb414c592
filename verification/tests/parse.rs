use std::str::FromStr;

use cursor_icon::{CursorIcon, CursorIconParseError};

/// Every icon beside its canonical name, in the order of the name table.
fn table() -> Vec<(CursorIcon, &'static str)> {
    vec![
        (CursorIcon::Default, "default"),
        (CursorIcon::ContextMenu, "context-menu"),
        (CursorIcon::Help, "help"),
        (CursorIcon::Pointer, "pointer"),
        (CursorIcon::Progress, "progress"),
        (CursorIcon::Wait, "wait"),
        (CursorIcon::Cell, "cell"),
        (CursorIcon::Crosshair, "crosshair"),
        (CursorIcon::Text, "text"),
        (CursorIcon::VerticalText, "vertical-text"),
        (CursorIcon::Alias, "alias"),
        (CursorIcon::Copy, "copy"),
        (CursorIcon::Move, "move"),
        (CursorIcon::NoDrop, "no-drop"),
        (CursorIcon::NotAllowed, "not-allowed"),
        (CursorIcon::Grab, "grab"),
        (CursorIcon::Grabbing, "grabbing"),
        (CursorIcon::EResize, "e-resize"),
        (CursorIcon::NResize, "n-resize"),
        (CursorIcon::NeResize, "ne-resize"),
        (CursorIcon::NwResize, "nw-resize"),
        (CursorIcon::SResize, "s-resize"),
        (CursorIcon::SeResize, "se-resize"),
        (CursorIcon::SwResize, "sw-resize"),
        (CursorIcon::WResize, "w-resize"),
        (CursorIcon::EwResize, "ew-resize"),
        (CursorIcon::NsResize, "ns-resize"),
        (CursorIcon::NeswResize, "nesw-resize"),
        (CursorIcon::NwseResize, "nwse-resize"),
        (CursorIcon::ColResize, "col-resize"),
        (CursorIcon::RowResize, "row-resize"),
        (CursorIcon::AllScroll, "all-scroll"),
        (CursorIcon::ZoomIn, "zoom-in"),
        (CursorIcon::ZoomOut, "zoom-out"),
    ]
}

#[test]
fn parse_of_name_gives_icon_back() {
    for (icon, _) in table() {
        assert_eq!(CursorIcon::from_str(icon.name()), Ok(icon));
    }
}

#[test]
fn parse_accepts_every_table_entry() {
    for (icon, name) in table() {
        assert_eq!(CursorIcon::from_str(name), Ok(icon), "{}", name);
    }
}

#[test]
fn name_of_parsed_icon_is_the_text() {
    for (_, name) in table() {
        let icon = CursorIcon::from_str(name).unwrap();
        assert_eq!(icon.name(), name);
    }
}

#[test]
fn parse_through_str_parse() {
    assert_eq!("wait".parse::<CursorIcon>(), Ok(CursorIcon::Wait));
    assert_eq!("not-allowed".parse::<CursorIcon>(), Ok(CursorIcon::NotAllowed));
    assert_eq!("busy".parse::<CursorIcon>(), Err(CursorIconParseError));
}

#[test]
fn parse_takes_owned_text_too() {
    let text = String::from("vertical") + "-" + "text";
    assert_eq!(CursorIcon::from_str(&text), Ok(CursorIcon::VerticalText));
}

#[test]
fn stable_round_trip_of_compound_icons() {
    assert_eq!(CursorIcon::NeswResize.name(), "nesw-resize");
    assert_eq!(CursorIcon::from_str("nesw-resize"), Ok(CursorIcon::NeswResize));
    assert_eq!(CursorIcon::AllScroll.name(), "all-scroll");
    assert_eq!(CursorIcon::from_str("all-scroll"), Ok(CursorIcon::AllScroll));
}

#[test]
fn parse_rejects_empty_text() {
    assert_eq!(CursorIcon::from_str(""), Err(CursorIconParseError));
}

#[test]
fn parse_rejects_upper_case() {
    assert_eq!(CursorIcon::from_str("DEFAULT"), Err(CursorIconParseError));
    assert_eq!(CursorIcon::from_str("Default"), Err(CursorIconParseError));
    assert_eq!(CursorIcon::from_str("Zoom-In"), Err(CursorIconParseError));
}

#[test]
fn parse_rejects_wrong_separator() {
    assert_eq!(CursorIcon::from_str("context_menu"), Err(CursorIconParseError));
    assert_eq!(CursorIcon::from_str("context menu"), Err(CursorIconParseError));
    assert_eq!(CursorIcon::from_str("contextmenu"), Err(CursorIconParseError));
    assert_eq!(CursorIcon::from_str("context--menu"), Err(CursorIconParseError));
}

#[test]
fn parse_rejects_reordered_words() {
    assert_eq!(CursorIcon::from_str("resize-n"), Err(CursorIconParseError));
    assert_eq!(CursorIcon::from_str("in-zoom"), Err(CursorIconParseError));
    assert_eq!(CursorIcon::from_str("swne-resize"), Err(CursorIconParseError));
}

#[test]
fn negative_lookups_fail() {
    for text in ["", "DEFAULT", "context_menu", "resize-n"] {
        assert_eq!(CursorIcon::from_str(text), Err(CursorIconParseError), "{:?}", text);
    }
}

#[test]
fn parse_rejects_variant_identifiers() {
    for text in ["ContextMenu", "NeswResize", "AllScroll", "CursorIcon::Default"] {
        assert_eq!(CursorIcon::from_str(text), Err(CursorIconParseError), "{:?}", text);
    }
}

#[test]
fn parse_does_not_trim() {
    for text in [" default", "default ", "\tdefault", "default\n", " ", "default\0"] {
        assert_eq!(CursorIcon::from_str(text), Err(CursorIconParseError), "{:?}", text);
    }
}

#[test]
fn parse_rejects_cut_and_extended_names() {
    for (_, name) in table() {
        let cut = &name[..name.len() - 1];
        assert_eq!(CursorIcon::from_str(cut), Err(CursorIconParseError), "{:?}", cut);
        let longer = format!("{}s", name);
        assert_eq!(CursorIcon::from_str(&longer), Err(CursorIconParseError), "{:?}", longer);
        let doubled = format!("{}{}", name, name);
        assert_eq!(CursorIcon::from_str(&doubled), Err(CursorIconParseError), "{:?}", doubled);
    }
}

#[test]
fn parse_agrees_with_a_search_of_the_table_on_every_fragment() {
    let all = table();
    for (_, name) in all.iter() {
        for start in 0..=name.len() {
            for end in start..=name.len() {
                let fragment = &name[start..end];
                let expected = all
                    .iter()
                    .find(|(_, other)| *other == fragment)
                    .map(|(icon, _)| *icon)
                    .ok_or(CursorIconParseError);
                assert_eq!(CursorIcon::from_str(fragment), expected, "{:?}", fragment);
            }
        }
    }
}

#[test]
fn parse_finds_names_that_end_longer_names() {
    // "ne-resize" without its first letter is the name of another icon.
    assert_eq!(CursorIcon::from_str(&"ne-resize"[1..]), Ok(CursorIcon::EResize));
    assert_eq!(CursorIcon::from_str(&"sw-resize"[1..]), Ok(CursorIcon::WResize));
    assert_eq!(CursorIcon::from_str(&"ns-resize"[1..]), Ok(CursorIcon::SResize));
    assert_eq!(CursorIcon::from_str(&"vertical-text"[9..]), Ok(CursorIcon::Text));
    assert_eq!(CursorIcon::from_str(&"grabbing"[..4]), Ok(CursorIcon::Grab));
}

#[test]
fn parse_tells_grab_from_grabbing() {
    assert_eq!(CursorIcon::from_str("grab"), Ok(CursorIcon::Grab));
    assert_eq!(CursorIcon::from_str("grabbing"), Ok(CursorIcon::Grabbing));
    assert_eq!(CursorIcon::from_str("grabb"), Err(CursorIconParseError));
    assert_eq!(CursorIcon::from_str("grabbin"), Err(CursorIconParseError));
}

#[test]
fn parse_tells_names_of_equal_length_apart() {
    assert_eq!(CursorIcon::from_str("ne-resize"), Ok(CursorIcon::NeResize));
    assert_eq!(CursorIcon::from_str("nw-resize"), Ok(CursorIcon::NwResize));
    assert_eq!(CursorIcon::from_str("se-resize"), Ok(CursorIcon::SeResize));
    assert_eq!(CursorIcon::from_str("sw-resize"), Ok(CursorIcon::SwResize));
    assert_eq!(CursorIcon::from_str("ew-resize"), Ok(CursorIcon::EwResize));
    assert_eq!(CursorIcon::from_str("ns-resize"), Ok(CursorIcon::NsResize));
    assert_eq!(CursorIcon::from_str("nesw-resize"), Ok(CursorIcon::NeswResize));
    assert_eq!(CursorIcon::from_str("nwse-resize"), Ok(CursorIcon::NwseResize));
    assert_eq!(CursorIcon::from_str("ne-resizf"), Err(CursorIconParseError));
    assert_eq!(CursorIcon::from_str("nn-resize"), Err(CursorIconParseError));
    assert_eq!(CursorIcon::from_str("nese-resize"), Err(CursorIconParseError));
}

#[test]
fn parse_rejects_text_outside_ascii() {
    // A hyphen of another code point, an accented letter, a wide letter.
    for text in ["zoom\u{2010}in", "d\u{e9}fault", "\u{ff48}elp", "help\u{301}", "\u{1f5b1}"] {
        assert_eq!(CursorIcon::from_str(text), Err(CursorIconParseError), "{:?}", text);
    }
}

#[test]
fn parse_rejects_long_text() {
    let long = "default".repeat(1000);
    assert_eq!(CursorIcon::from_str(&long), Err(CursorIconParseError));
    let padded = format!("{}{}", "zoom-out", "-".repeat(4096));
    assert_eq!(CursorIcon::from_str(&padded), Err(CursorIconParseError));
}

#[test]
fn parse_rejects_other_css_keywords() {
    for text in ["auto", "none", "inherit", "hand", "arrow", "resize"] {
        assert_eq!(CursorIcon::from_str(text), Err(CursorIconParseError), "{:?}", text);
    }
}

#[test]
fn parse_is_repeatable() {
    assert_eq!(CursorIcon::from_str("crosshair"), CursorIcon::from_str("crosshair"));
    assert_eq!(CursorIcon::from_str("cross-hair"), CursorIcon::from_str("cross-hair"));
}

#[test]
fn parse_error_message_is_fixed() {
    let error = CursorIcon::from_str("nothing").unwrap_err();
    assert_eq!(error.to_string(), "failed to parse cursor icon");
    assert_eq!(CursorIconParseError.to_string(), "failed to parse cursor icon");
}

#[test]
fn parse_errors_compare_equal() {
    let first = CursorIcon::from_str("").unwrap_err();
    let second = CursorIcon::from_str("DEFAULT").unwrap_err();
    assert_eq!(first, second);
    assert_eq!(first, CursorIconParseError);
    assert_eq!(format!("{:?}", first), "CursorIconParseError");
}

#[test]
fn failed_parse_can_fall_back_to_default() {
    let icon = CursorIcon::from_str("no-such-cursor").unwrap_or_default();
    assert_eq!(icon, CursorIcon::Default);
}
