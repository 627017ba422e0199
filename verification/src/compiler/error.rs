//! What stops a compilation.

use crate::soundfont::SoundfontError;
use vstd::prelude::*;
use vstd::std_specs::convert::FromSpecImpl;
use vstd::string::StringExecFns;

verus! {

/// What stops a compilation.
#[derive(Debug, Clone, Copy, PartialEq, Eq, Structural)]
pub enum CompilerError {
    /// The project manifest cannot be opened or read.
    ProjectManifestCantOpen,
    /// A string or a sample breaks a rule of the format.
    SoundfontError { source: SoundfontError },
    /// The bank has more zones, or more sample points, than the indices of
    /// the format can address.
    BankTooLarge,
}

impl From<SoundfontError> for CompilerError {
    fn from(source: SoundfontError) -> (error: Self) {
        CompilerError::SoundfontError { source }
    }
}

impl FromSpecImpl<SoundfontError> for CompilerError {
    open spec fn obeys_from_spec() -> bool {
        true
    }

    open spec fn from_spec(source: SoundfontError) -> Self {
        CompilerError::SoundfontError { source }
    }
}

impl CompilerError {
    /// The text that describes this error.
    pub open spec fn message(self) -> Seq<char> {
        match self {
            CompilerError::ProjectManifestCantOpen => {
                "Can't access project manifest at given path."@
            },
            CompilerError::SoundfontError { source } => source.message(),
            CompilerError::BankTooLarge => {
                "The bank holds more zones or sample points than a SoundFont can address."@
            },
        }
    }

    /// Describes this error in words.
    pub fn to_string(&self) -> (text: String)
        ensures
            text@ == self.message(),
    {
        match self {
            CompilerError::ProjectManifestCantOpen => {
                String::from_str("Can't access project manifest at given path.")
            },
            CompilerError::SoundfontError { source } => source.to_string(),
            CompilerError::BankTooLarge => {
                String::from_str(
                    "The bank holds more zones or sample points than a SoundFont can address.",
                )
            },
        }
    }
}

} // verus!
