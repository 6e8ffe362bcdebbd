//! GUIDs, which identify objects such as interfaces, manager entry-point vectors and class
//! objects. <https://docs.microsoft.com/en-us/previous-versions/aa373931(v%3Dvs.80)>
use vstd::prelude::*;
use crate::cursor::{ByteCursor, le_u16, le_u32};
use crate::err::Error;
use crate::text::{hex_fixed, push_hex_fixed};

verus! {

broadcast use crate::cursor::lemma_pos_nonneg;

/// The fields of a GUID as plain values.
pub struct GuidView {
    pub data1: u32,
    pub data2: u16,
    pub data3: u16,
    pub data4: Seq<u8>,
}

/// The GUID encoded in the sixteen bytes of `b` at `p`; `None` when `b` ends first.
///
/// Layout: `data1` (4 bytes), `data2` (2 bytes), `data3` (2 bytes), all little-endian,
/// then the eight bytes of `data4` as they stand.
pub open spec fn parse_guid(b: Seq<u8>, p: int) -> Option<GuidView> {
    if 0 <= p && p + 16 <= b.len() {
        Some(
            GuidView {
                data1: le_u32(b, p),
                data2: le_u16(b, p + 4),
                data3: le_u16(b, p + 6),
                data4: b.subrange(p + 8, p + 16),
            },
        )
    } else {
        None
    }
}

/// The registry form of a GUID, upper case: `54849625-5478-4994-A5BA-3E3B0328C30D`.
pub open spec fn guid_text(g: GuidView) -> Seq<char> {
    hex_fixed(g.data1 as nat, 8) + seq!['-'] + hex_fixed(g.data2 as nat, 4) + seq!['-'] + hex_fixed(
        g.data3 as nat,
        4,
    ) + seq!['-'] + hex_fixed(g.data4[0] as nat, 2) + hex_fixed(g.data4[1] as nat, 2) + seq!['-']
        + hex_fixed(g.data4[2] as nat, 2) + hex_fixed(g.data4[3] as nat, 2) + hex_fixed(
        g.data4[4] as nat,
        2,
    ) + hex_fixed(g.data4[5] as nat, 2) + hex_fixed(g.data4[6] as nat, 2) + hex_fixed(
        g.data4[7] as nat,
        2,
    )
}

/// A globally unique identifier.
#[derive(Clone, Copy, Debug, PartialEq, Eq, PartialOrd)]
pub struct Guid {
    /// The first 8 hexadecimal digits.
    data1: u32,
    /// The first group of 4 hexadecimal digits.
    data2: u16,
    /// The second group of 4 hexadecimal digits.
    data3: u16,
    /// The first 2 bytes hold the third group of 4 hexadecimal digits, the other 6 the last 12.
    data4: [u8; 8],
}

impl View for Guid {
    type V = GuidView;

    closed spec fn view(&self) -> GuidView {
        GuidView { data1: self.data1, data2: self.data2, data3: self.data3, data4: self.data4@ }
    }
}

impl Guid {
    /// A GUID made directly from its components.
    pub fn new(data1: u32, data2: u16, data3: u16, data4: [u8; 8]) -> (r: Guid)
        ensures
            r@ == (GuidView { data1, data2, data3, data4: data4@ }),
    {
        Guid { data1, data2, data3, data4 }
    }

    /// Decodes a GUID from the first sixteen bytes of `buffer`.
    pub fn from_buffer(buffer: &[u8]) -> (r: Result<Guid, Error>)
        ensures
            match parse_guid(buffer@, 0) {
                Some(g) => r is Ok && r->Ok_0@ == g,
                None => r is Err && r->Err_0 == Error::IoError,
            },
    {
        let mut reader = ByteCursor::new(buffer);
        Self::from_reader(&mut reader)
    }

    /// The same as [`Guid::from_reader`], under its earlier name.
    pub fn from_stream(stream: &mut ByteCursor) -> (r: Result<Guid, Error>)
        ensures
            guid_read(old(stream), final(stream), r),
    {
        Self::from_reader(stream)
    }

    /// Decodes a GUID at the reader's position and moves past it.
    pub fn from_reader(reader: &mut ByteCursor) -> (r: Result<Guid, Error>)
        ensures
            guid_read(old(reader), final(reader), r),
    {
        let ghost b = reader.bytes();
        let ghost p = reader.pos();
        if !(reader.tell() <= reader.len() && reader.len() - reader.tell() >= 16) {
            return Err(Error::IoError);
        }
        let data1 = match reader.read_u32_le() {
            Ok(v) => v,
            Err(e) => return Err(e),
        };
        let data2 = match reader.read_u16_le() {
            Ok(v) => v,
            Err(e) => return Err(e),
        };
        let data3 = match reader.read_u16_le() {
            Ok(v) => v,
            Err(e) => return Err(e),
        };
        let d = match reader.read_bytes(8) {
            Ok(v) => v,
            Err(e) => return Err(e),
        };
        let data4: [u8; 8] = [d[0], d[1], d[2], d[3], d[4], d[5], d[6], d[7]];
        assert(data4@ =~= b.subrange(p + 8, p + 16));
        Ok(Guid { data1, data2, data3, data4 })
    }

    /// The registry form, upper case: `54849625-5478-4994-A5BA-3E3B0328C30D`.
    pub fn to_string(&self) -> (r: String)
        ensures
            r@ == guid_text(self@),
    {
        proof {
            reveal_strlit("-");
        }
        let mut s = String::new();
        push_hex_fixed(&mut s, self.data1 as u64, 8);
        s.append("-");
        push_hex_fixed(&mut s, self.data2 as u64, 4);
        s.append("-");
        push_hex_fixed(&mut s, self.data3 as u64, 4);
        s.append("-");
        push_hex_fixed(&mut s, self.data4[0] as u64, 2);
        push_hex_fixed(&mut s, self.data4[1] as u64, 2);
        s.append("-");
        push_hex_fixed(&mut s, self.data4[2] as u64, 2);
        push_hex_fixed(&mut s, self.data4[3] as u64, 2);
        push_hex_fixed(&mut s, self.data4[4] as u64, 2);
        push_hex_fixed(&mut s, self.data4[5] as u64, 2);
        push_hex_fixed(&mut s, self.data4[6] as u64, 2);
        push_hex_fixed(&mut s, self.data4[7] as u64, 2);
        assert(s@ =~= guid_text(self@));
        s
    }
}

/// How a decode of a GUID from a cursor ends: as `parse_guid` says, else with an I/O error.
pub open spec fn guid_read(before: &ByteCursor, after: &ByteCursor, r: Result<Guid, Error>) -> bool {
    &&& after.bytes() == before.bytes()
    &&& match parse_guid(before.bytes(), before.pos()) {
        Some(g) => r is Ok && r->Ok_0@ == g && after.pos() == before.pos() + 16,
        None => r is Err && r->Err_0 == Error::IoError && after.pos() == before.pos(),
    }
}

} // verus!
