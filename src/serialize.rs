//! Options for rendering decoded values in reports.
use vstd::prelude::*;

verus! {

/// How a 64-bit number is written out: as a number, or as its decimal text (for readers that
/// cannot hold 64-bit integers exactly).
#[derive(Clone, Copy, Debug, PartialEq, Eq, Structural)]
pub enum U64Serialization {
    AsU64,
    AsString,
}

} // verus!
