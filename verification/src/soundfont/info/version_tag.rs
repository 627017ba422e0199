//! Version numbers of the format and of a wavetable ROM.

use crate::soundfont::bytes::{le_u16, push_u16};
use vstd::prelude::*;

verus! {

/// A version: major and minor number.
#[derive(Debug, Clone, Copy, PartialEq, Eq, Structural)]
pub struct VersionTag {
    pub major: u16,
    pub minor: u16,
}

impl Default for VersionTag {
    fn default() -> (tag: Self)
        ensures
            tag == (VersionTag { major: 0, minor: 0 }),
    {
        VersionTag { major: 0, minor: 0 }
    }
}

impl VersionTag {
    /// The four bytes of the version: major, then minor number.
    pub open spec fn encoding(self) -> Seq<u8> {
        le_u16(self.major) + le_u16(self.minor)
    }

    /// The version `major`.`minor`.
    pub fn new(major: u16, minor: u16) -> (tag: Self)
        ensures
            tag == (VersionTag { major, minor }),
    {
        Self { major, minor }
    }

    /// Encodes the version in four bytes.
    pub fn to_bytes(&self) -> (bytes: Vec<u8>)
        ensures
            bytes@ == self.encoding(),
            bytes@.len() == 4,
    {
        let mut bytes: Vec<u8> = Vec::new();
        push_u16(&mut bytes, self.major);
        push_u16(&mut bytes, self.minor);
        bytes
    }
}

} // verus!
