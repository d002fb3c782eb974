//! The parameters a server announces once, in its handshake.

use vstd::prelude::*;

verus! {

/// The three characters that give keys their structure for the whole session.
///
/// They are learned from the handshake and never change afterwards.
#[derive(Clone, Copy, Debug, PartialEq, Eq, Structural)]
pub struct SessionParameters {
    /// Separates the segments of a key.
    pub separator: char,
    /// Stands for exactly one segment of a key.
    pub wildcard: char,
    /// Stands for any number of trailing segments of a key.
    pub multi_wildcard: char,
}

impl SessionParameters {
    /// Bundles the three announced characters.
    pub fn new(separator: char, wildcard: char, multi_wildcard: char) -> (parameters: Self)
        ensures
            parameters == (SessionParameters { separator, wildcard, multi_wildcard }),
    {
        SessionParameters { separator, wildcard, multi_wildcard }
    }

    /// The character that separates the segments of a key.
    pub fn separator(&self) -> (c: char)
        ensures
            c == self.separator,
    {
        self.separator
    }

    /// The character that stands for exactly one segment.
    pub fn wildcard(&self) -> (c: char)
        ensures
            c == self.wildcard,
    {
        self.wildcard
    }

    /// The character that stands for any number of trailing segments.
    pub fn multi_wildcard(&self) -> (c: char)
        ensures
            c == self.multi_wildcard,
    {
        self.multi_wildcard
    }
}

} // verus!
