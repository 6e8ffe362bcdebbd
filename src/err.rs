//! Library error types.
use vstd::prelude::*;

verus! {

/// Why a decode stopped.
#[derive(Clone, Copy, Debug, PartialEq, Eq, Structural)]
pub enum Error {
    /// The input ended before the structure did, or a seek target could not be represented.
    IoError,
    /// An ACE type byte outside the known set.
    UnknownAceType { ace_type: u8 },
    /// An ACE whose declared size is smaller than its own four-byte header.
    InvalidAceSize { size: u16 },
}

} // verus!
