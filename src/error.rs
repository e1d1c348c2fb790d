//! Errors of the numeric and text codecs.
use vstd::prelude::*;

verus! {

/// Why a number or a text could not be decoded into a `Transform` or a `Direction`.
#[derive(Clone, Copy, Debug, PartialEq, Eq)]
pub enum NavError {
    /// The number lies outside the codes of the type.
    OutOfRange(u8),
    /// The text matches none of the accepted tokens; the message lists them.
    InvalidToken(&'static str),
}

} // verus!
