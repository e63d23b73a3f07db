//! Finds out whether a terminal has a dark or a light background.
//!
//! The terminal is asked for its background colour with the OSC 11 escape
//! sequence ([`osc`]). Its answer names a colour ([`color`]), whose relative
//! luminance ([`srgb`]) decides: below one half the background is dark.
//!
//! The library decides and computes; it neither opens nor reads nor writes
//! anything. The exchange with the terminal is laid down in
//! [`osc::query_bg_from_terminal`] as a sequence of steps that a caller
//! carries out.
//!
//! What is proved of the library beyond the contracts of its functions
//! stands in modules of its own: [`forms`] on the texts of colours,
//! [`answers`] on the answers of terminals, [`exact`] and [`margin`] on
//! luminance.

use vstd::prelude::*;

pub mod answers;
pub mod color;
pub mod exact;
pub mod forms;
pub mod margin;
pub mod osc;
pub mod srgb;
pub mod terminal;
pub mod text;

use crate::color::{class_name, classify_color, parse_color, parse_rgb, ParseError};
use crate::osc::{reply_view, QueryError};

verus! {

/// The exit code of a process that found the background out.
pub const EXIT_FOUND: i32 = 0;

/// The exit code of a process that could not find the background out.
pub const EXIT_UNKNOWN: i32 = 2;

/// Why the background is not known.
#[derive(Debug, Clone, Copy, PartialEq, Eq, Structural)]
pub enum DetectError {
    /// The query brought no colour.
    Query(QueryError),
    /// The terminal's reply is not a colour.
    Parse(ParseError),
}

/// The class of the background that the reply of a query tells: the class
/// of the colour that the reply writes, or the first thing that went wrong.
pub open spec fn detected(reply: Result<Seq<char>, QueryError>) -> Result<Seq<char>, DetectError> {
    match reply {
        Err(e) => Err(DetectError::Query(e)),
        Ok(color) => match parse_color(color) {
            Err(e) => Err(DetectError::Parse(e)),
            Ok(rgb) => Ok(class_name(rgb)),
        },
    }
}

/// The word that a process writes for `class`.
pub open spec fn answer_of(class: Result<Seq<char>, DetectError>) -> Seq<char> {
    match class {
        Ok(name) => name,
        Err(_) => "unknown"@,
    }
}

/// The view of a class.
pub open spec fn class_view(class: Result<&'static str, DetectError>) -> Result<
    Seq<char>,
    DetectError,
> {
    match class {
        Ok(name) => Ok(name@),
        Err(e) => Err(e),
    }
}

/// Says whether the background is dark or light, from the reply of a query
/// to the terminal.
///
/// A reply that is a colour gives `"dark"` or `"light"`. A query that
/// failed, and a reply that is no colour, give the error.
pub fn detect_background(reply: Result<String, QueryError>) -> (class: Result<
    &'static str,
    DetectError,
>)
    ensures
        class_view(class) == detected(reply_view(reply)),
{
    match reply {
        Err(e) => Err(DetectError::Query(e)),
        Ok(color) => match parse_rgb(color.as_str()) {
            Err(e) => Err(DetectError::Parse(e)),
            Ok(rgb) => Ok(classify_color(rgb)),
        },
    }
}

/// The word that a process writes to its standard output for `class`: the
/// class where there is one, `"unknown"` where there is none.
pub fn answer(class: Result<&'static str, DetectError>) -> (word: &'static str)
    ensures
        word@ == answer_of(class_view(class)),
{
    match class {
        Ok(name) => name,
        Err(_) => "unknown",
    }
}

/// The exit code of a process for `class`: [`EXIT_FOUND`] where there is
/// one, [`EXIT_UNKNOWN`] where there is none.
pub fn exit_code(class: Result<&'static str, DetectError>) -> (code: i32)
    ensures
        code == if class is Ok {
            EXIT_FOUND
        } else {
            EXIT_UNKNOWN
        },
{
    match class {
        Ok(_) => EXIT_FOUND,
        Err(_) => EXIT_UNKNOWN,
    }
}

} // verus!
