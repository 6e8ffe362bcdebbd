//! MFT references: an entry number and a sequence number packed into 64 bits.
//! <https://msdn.microsoft.com/en-us/library/bb470211(v=vs.85).aspx>
use vstd::prelude::*;
use crate::cursor::{ByteCursor, le_u64};
use crate::err::Error;

verus! {

/// The value of the low 48 bits, which hold the entry number.
pub const ENTRY_LIMIT: u64 = 0x1_0000_0000_0000;

/// The reference packed in `v`: the entry is the low 48 bits, the sequence number the high 16.
pub open spec fn split_reference(v: u64) -> MftReference {
    MftReference { entry: (v % ENTRY_LIMIT) as u64, sequence: (v / ENTRY_LIMIT) as u16 }
}

/// A reference to an MFT entry.
#[derive(Clone, Copy, Debug, PartialEq, Eq, Hash, Structural)]
pub struct MftReference {
    pub entry: u64,
    pub sequence: u16,
}

impl MftReference {
    /// A reference made directly from its parts.
    pub fn new(entry: u64, sequence: u16) -> (r: MftReference)
        ensures
            r == (MftReference { entry, sequence }),
    {
        MftReference { entry, sequence }
    }

    /// Decodes a reference: eight bytes, little-endian, split as `From<u64>` does.
    pub fn from_reader(reader: &mut ByteCursor) -> (r: Result<MftReference, Error>)
        ensures
            old(reader).advanced(final(reader), r is Ok, 8),
            old(reader).has(8) ==> r == Ok::<MftReference, Error>(
                split_reference(le_u64(old(reader).bytes(), old(reader).pos())),
            ),
            !old(reader).has(8) ==> r == Err::<MftReference, Error>(Error::IoError),
    {
        match reader.read_u64_le() {
            Ok(v) => Ok(MftReference::from(v)),
            Err(e) => Err(e),
        }
    }
}

impl From<u64> for MftReference {
    /// The entry is the low 48 bits, the sequence number the high 16.
    fn from(mft_entry: u64) -> (r: MftReference)
        ensures
            r == split_reference(mft_entry),
    {
        MftReference { entry: mft_entry % ENTRY_LIMIT, sequence: (mft_entry / ENTRY_LIMIT) as u16 }
    }
}

impl vstd::std_specs::convert::FromSpecImpl<u64> for MftReference {
    open spec fn obeys_from_spec() -> bool {
        true
    }

    open spec fn from_spec(v: u64) -> MftReference {
        split_reference(v)
    }
}

/// Splitting loses nothing: the entry fits in 48 bits, and the entry plus the sequence number
/// times 2^48 gives back the packed value.
pub proof fn lemma_split_round_trip(v: u64)
    ensures
        split_reference(v).entry < ENTRY_LIMIT,
        split_reference(v).entry + split_reference(v).sequence * ENTRY_LIMIT == v,
{
}

} // verus!
