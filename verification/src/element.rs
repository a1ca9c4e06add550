//! The vocabulary shared by the elements: state changes, pad directions,
//! flow results, and the comparison of names.

use vstd::prelude::*;

verus! {

/// A transition between two states of an element.
#[derive(Debug, Clone, Copy, PartialEq, Eq, Structural)]
pub enum StateChange {
    NullToReady,
    ReadyToPaused,
    PausedToPlaying,
    PlayingToPaused,
    PausedToReady,
    ReadyToNull,
    NullToNull,
    ReadyToReady,
    PausedToPaused,
    PlayingToPlaying,
}

/// An element refused a state change.
#[derive(Debug, Clone, Copy, PartialEq, Eq, Structural)]
pub struct StateChangeError;

/// The direction of a pad.
#[derive(Debug, Clone, Copy, PartialEq, Eq, Structural)]
pub enum PadDirection {
    Unknown,
    Src,
    Sink,
}

/// Why a buffer could not be handled.
#[derive(Debug, Clone, Copy, PartialEq, Eq, Structural)]
pub enum FlowError {
    /// No format was negotiated yet.
    NotNegotiated,
    /// Handling the buffer failed.
    Error,
}

/// The view of an optional string.
pub open spec fn opt_view(s: Option<String>) -> Option<Seq<char>> {
    match s {
        Some(v) => Some(v@),
        None => None,
    }
}

/// Whether two names are the same string.
pub fn same_name(a: &str, b: &str) -> (r: bool)
    ensures
        r == (a@ == b@),
{
    let a_owned = a.to_owned();
    let b_owned = b.to_owned();
    a_owned == b_owned
}

} // verus!
