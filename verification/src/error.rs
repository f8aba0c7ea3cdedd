//! The ways a calculation can be refused.

use vstd::prelude::*;

verus! {

/// Why a request was refused.
#[derive(Clone, Copy, Debug, PartialEq, Eq, Structural)]
pub enum SubnetError {
    /// The address family is known but not handled: IPv6.
    UnsupportedVersion,
    /// A version number or an output selector outside the accepted set
    /// reached the library, so earlier validation was bypassed.
    InvalidState,
}

impl SubnetError {
    /// The refusal that a version number earns, if any: version 4 is served,
    /// version 6 is unsupported, and every other number is invalid input.
    pub open spec fn for_version(version: u8) -> Option<SubnetError> {
        if version == 4 {
            None
        } else if version == 6 {
            Some(SubnetError::UnsupportedVersion)
        } else {
            Some(SubnetError::InvalidState)
        }
    }

    /// The process exit status that reports this error.
    pub open spec fn spec_exit_code(self) -> int {
        match self {
            SubnetError::UnsupportedVersion => 2,
            SubnetError::InvalidState => 1,
        }
    }

    /// The line shown to the user for this error.
    pub open spec fn spec_message(self) -> Seq<char> {
        match self {
            SubnetError::UnsupportedVersion => "IPv6 is not supported yet."@,
            SubnetError::InvalidState => "Somehow an invalid argument got past our error checking. It would be greatly appreciated if you could let us know how you did that."@,
        }
    }

    /// The refusal that a version number earns, if any.
    pub fn check_version(version: u8) -> (refused: Option<SubnetError>)
        ensures
            refused == Self::for_version(version),
    {
        match version {
            4 => None,
            6 => Some(SubnetError::UnsupportedVersion),
            _ => Some(SubnetError::InvalidState),
        }
    }

    /// The process exit status that reports this error: 2 for an unsupported
    /// address family, 1 for a selector that validation should have excluded.
    pub fn exit_code(&self) -> (code: i32)
        ensures
            code == self.spec_exit_code(),
    {
        match self {
            SubnetError::UnsupportedVersion => 2,
            SubnetError::InvalidState => 1,
        }
    }

    /// The line shown to the user for this error.
    pub fn message(&self) -> (text: &'static str)
        ensures
            text@ == self.spec_message(),
    {
        match self {
            SubnetError::UnsupportedVersion => "IPv6 is not supported yet.",
            SubnetError::InvalidState => "Somehow an invalid argument got past our error checking. It would be greatly appreciated if you could let us know how you did that.",
        }
    }
}

} // verus!
