//! The cross platform cursor icon type.
//!
//! [`CursorIcon`] is a closed set of cursor icons. Each has one canonical
//! name, given by [`CursorIcon::name`], and parsing a name with
//! [`core::str::FromStr`] gives the icon back. The module [`laws`] proves
//! what holds of the table of names as a whole.

pub mod error;
pub mod icon;
pub mod laws;
pub mod parse;
mod text;

pub use error::CursorIconParseError;
pub use icon::CursorIcon;
