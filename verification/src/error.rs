//! The error reported when a text names no cursor icon.

use vstd::prelude::*;

verus! {

/// An error which could be returned when parsing a [`CursorIcon`](crate::CursorIcon).
///
/// It says that the text matched no canonical name, and nothing more.
#[derive(Debug, PartialEq, Eq, Structural)]
pub struct CursorIconParseError;

impl CursorIconParseError {
    /// The fixed text of the error message.
    pub open spec fn spec_message() -> Seq<char> {
        "failed to parse cursor icon"@
    }

    /// The human-readable message of this error.
    #[allow(clippy::inherent_to_string)]
    pub fn to_string(&self) -> (text: String)
        ensures
            text@ == Self::spec_message(),
    {
        "failed to parse cursor icon".to_owned()
    }
}

} // verus!
