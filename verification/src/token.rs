//! Caller-chosen registration identifiers.

use vstd::prelude::*;

verus! {

/// An opaque identifier attached to a registration.
///
/// The poller never interprets the value: the token supplied at registration
/// is carried unchanged into every event delivered for that registration.
#[derive(Copy, Clone, Debug, PartialEq, Eq, Structural, Hash, PartialOrd, Ord)]
pub struct Token(pub usize);

impl Token {
    /// The wrapped value.
    pub fn as_usize(&self) -> (r: usize)
        ensures
            r == self.0,
    {
        self.0
    }
}

} // verus!
