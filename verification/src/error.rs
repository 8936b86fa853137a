//! The failures that the library reports.

use vstd::prelude::*;

verus! {

/// What can go wrong while planning a scaffold.
#[derive(Clone, Copy, Debug, PartialEq, Eq, Structural)]
pub enum ScaffoldError {
    /// An identifier holds no character other than the `-` separator, so its
    /// derived forms would be empty.
    InvalidIdentifier,
    /// The entry file does not hold the anchor after which modules are
    /// registered.
    MissingAnchor,
}

impl ScaffoldError {
    /// A one-line description for the user.
    pub fn message(&self) -> (text: String)
        ensures
            text@ == match *self {
                ScaffoldError::InvalidIdentifier => "invalid identifier: a name needs at least one character other than '-'"@,
                ScaffoldError::MissingAnchor => "the entry file does not contain the anchor line `use godot::prelude::*;`"@,
            },
    {
        match self {
            ScaffoldError::InvalidIdentifier => String::from_str(
                "invalid identifier: a name needs at least one character other than '-'",
            ),
            ScaffoldError::MissingAnchor => String::from_str(
                "the entry file does not contain the anchor line `use godot::prelude::*;`",
            ),
        }
    }
}

} // verus!
