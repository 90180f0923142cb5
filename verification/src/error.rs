//! The error model shared by all carriers.

use vstd::prelude::*;
use vstd::string::{to_string_from_display_ensures, StringExecFns};
use core::fmt::Display;

verus! {

/// Transport error.
///
/// `Closed` is terminal: the carrier can make no further progress in the
/// direction that failed. `Other` carries a carrier-specific error after which
/// the carrier stays usable.
#[derive(Debug, PartialEq, Eq)]
pub enum Error<Other> {
    /// Occurs when transport is closed.
    Closed,
    /// Other non-predefined transport-specific error.
    Other(Other),
}

impl<Other> Error<Other> {
    /// Tells whether this is the terminal error.
    pub fn is_closed(&self) -> (closed: bool)
        ensures
            closed == (self is Closed),
    {
        match self {
            Error::Closed => true,
            Error::Other(_) => false,
        }
    }
}

/// `text` is `prefix` followed by what `value` shows of itself.
pub open spec fn shows<T: Display>(prefix: Seq<char>, value: &T, text: Seq<char>) -> bool {
    exists|shown: String| #[trigger]
        to_string_from_display_ensures::<T>(value, shown) && text == prefix + shown@
}

/// Gives `prefix` followed by what `value` shows of itself.
pub fn prefixed<T: Display>(prefix: &str, value: &T) -> (text: String)
    ensures
        shows(prefix@, value, text@),
{
    let shown = value.to_string();
    let text = String::from_str(prefix).concat(shown.as_str());
    assert(to_string_from_display_ensures::<T>(value, shown) && text@ == prefix@ + shown@);
    text
}

/// `text` begins with `prefix`.
pub open spec fn begins_with(text: Seq<char>, prefix: Seq<char>) -> bool {
    text.len() >= prefix.len() && text.take(prefix.len() as int) == prefix
}

/// What `value` shows of itself for debugging, as `format!` gives it with
/// `{:?}`. Nothing is stated of the text.
#[verifier::external_body]
fn debug_text<T: core::fmt::Debug>(value: &T) -> String {
    format!("{value:?}")
}

/// Gives `prefix` followed by what `value` shows of itself for debugging.
pub fn prefixed_debug<T: core::fmt::Debug>(prefix: &str, value: &T) -> (text: String)
    ensures
        begins_with(text@, prefix@),
{
    let shown = debug_text(value);
    let text = String::from_str(prefix).concat(shown.as_str());
    assert(text@.take(prefix@.len() as int) =~= prefix@);
    text
}

impl<Other: Display> Error<Other> {
    /// Says what went wrong: that the transport is closed, or what the
    /// carrier's own error says.
    pub fn to_string(&self) -> (text: String)
        ensures
            match self {
                Error::Closed => text@ == "transport closed"@,
                Error::Other(other) => to_string_from_display_ensures::<Other>(other, text),
            },
    {
        match self {
            Error::Closed => String::from_str("transport closed"),
            Error::Other(other) => other.to_string(),
        }
    }
}

} // verus!
