//! What makes a string or a sample header unfit for a SoundFont.

use super::text::{decimal, decimal_digits};
use vstd::prelude::*;
use vstd::string::StringExecFns;

verus! {

/// A violation of the SoundFont format's rules on strings and sample headers.
#[derive(Debug, Clone, Copy, PartialEq, Eq, Structural)]
pub enum SoundfontError {
    /// A string holds a character outside ASCII.
    StringNonAscii,
    /// A string of `len` bytes was given where at most `limit` bytes fit.
    StringLimit { limit: usize, len: usize },
    /// A sample has fewer than 48 points.
    SampleTooShort,
    /// A sample's loop has fewer than 32 points.
    SampleLoopTooShort,
    /// Fewer than 8 points lie between a sample's start and its loop.
    SampleLoopNotEnoughLead,
    /// Fewer than 8 points lie between a sample's loop and its end.
    SampleLoopNotEnoughTail,
    /// The terminal sample header holds a field that is not zero.
    SampleTerminalNotNull,
}

impl SoundfontError {
    /// The text that describes this error.
    pub open spec fn message(self) -> Seq<char> {
        match self {
            SoundfontError::StringNonAscii => "Non-ascii string."@,
            SoundfontError::StringLimit { limit, len } => {
                "This string is too long. It must fit into "@ + decimal_digits(limit as nat)
                    + " bytes, but was "@ + decimal_digits(len as nat) + " bytes long."@
            },
            SoundfontError::SampleTooShort => "Sample data must be at least 48 data points long."@,
            SoundfontError::SampleLoopTooShort => "The loop must be at least 32 data points long."@,
            SoundfontError::SampleLoopNotEnoughLead => {
                "There must be at least 8 data points before startloop"@
            },
            SoundfontError::SampleLoopNotEnoughTail => {
                "There must be at least 8 data points after endloop"@
            },
            SoundfontError::SampleTerminalNotNull => "Terminal sample must be null."@,
        }
    }

    /// Describes this error in words.
    pub fn to_string(&self) -> (text: String)
        ensures
            text@ == self.message(),
    {
        match self {
            SoundfontError::StringNonAscii => String::from_str("Non-ascii string."),
            SoundfontError::StringLimit { limit, len } => {
                let mut text = String::from_str("This string is too long. It must fit into ");
                let limit_text = decimal(*limit);
                text.append(limit_text.as_str());
                text.append(" bytes, but was ");
                let len_text = decimal(*len);
                text.append(len_text.as_str());
                text.append(" bytes long.");
                text
            },
            SoundfontError::SampleTooShort => {
                String::from_str("Sample data must be at least 48 data points long.")
            },
            SoundfontError::SampleLoopTooShort => {
                String::from_str("The loop must be at least 32 data points long.")
            },
            SoundfontError::SampleLoopNotEnoughLead => {
                String::from_str("There must be at least 8 data points before startloop")
            },
            SoundfontError::SampleLoopNotEnoughTail => {
                String::from_str("There must be at least 8 data points after endloop")
            },
            SoundfontError::SampleTerminalNotNull => {
                String::from_str("Terminal sample must be null.")
            },
        }
    }
}

} // verus!
