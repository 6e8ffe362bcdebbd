//! Security identifiers.
//! Layout: <https://github.com/libyal/libfwnt/wiki/Security-Descriptor#security-identifier>
use vstd::prelude::*;
use crate::cursor::{ByteCursor, be_u48, le_u32};
use crate::err::Error;
use crate::security::authority::{
    Authority,
    SubAuthorityList,
    sub_authorities_at,
    sub_authorities_text,
};
use crate::text::{decimal, push_decimal};

verus! {

broadcast use crate::cursor::lemma_pos_nonneg;

/// The fields of a SID as plain values.
pub struct SidView {
    pub revision_number: u8,
    pub sub_authority_count: u8,
    pub authority: u64,
    pub sub_authorities: Seq<u32>,
}

/// The encoded length of a SID with `count` sub-authorities.
pub open spec fn sid_size(count: u8) -> int {
    8 + 4 * count
}

/// The SID encoded in `b` at `p`, and the position just past it; `None` when `b` ends first.
///
/// Layout: revision (1 byte), sub-authority count (1 byte), authority (6 bytes, big-endian),
/// then that many sub-authorities (4 bytes each, little-endian).
pub open spec fn parse_sid(b: Seq<u8>, p: int) -> Option<(SidView, int)> {
    if 0 <= p && p + 2 <= b.len() && p + sid_size(b[p + 1]) <= b.len() {
        Some(
            (
                SidView {
                    revision_number: b[p],
                    sub_authority_count: b[p + 1],
                    authority: be_u48(b, p + 2),
                    sub_authorities: sub_authorities_at(b, p + 8, b[p + 1] as nat),
                },
                p + sid_size(b[p + 1]),
            ),
        )
    } else {
        None
    }
}

/// The canonical text of a SID: `S-{revision}-{authority}` then `-{sub-authority}` for each.
pub open spec fn sid_text(s: SidView) -> Seq<char> {
    seq!['S', '-'] + decimal(s.revision_number as nat) + seq!['-'] + decimal(s.authority as nat)
        + sub_authorities_text(s.sub_authorities)
}

/// A decoded SID renders as `S-`, the revision byte in decimal, `-`, the six authority bytes read
/// big-endian in decimal, then `-` and each four-byte little-endian sub-authority in decimal, in
/// the order they are stored.
pub proof fn lemma_sid_text_from_bytes(b: Seq<u8>, p: int)
    requires
        parse_sid(b, p) is Some,
    ensures
        match parse_sid(b, p) {
            Some((v, _)) => sid_text(v) == seq!['S', '-'] + decimal(b[p] as nat) + seq!['-']
                + decimal(be_u48(b, p + 2) as nat) + sub_authorities_text(
                Seq::new(b[p + 1] as nat, |i: int| le_u32(b, p + 8 + 4 * i)),
            ),
            None => false,
        },
{
    assert(sub_authorities_at(b, p + 8, b[p + 1] as nat) =~= Seq::new(
        b[p + 1] as nat,
        |i: int| le_u32(b, p + 8 + 4 * i),
    ));
}

/// A decoded SID holds as many sub-authorities as its count field says.
pub proof fn lemma_sid_count_agrees(b: Seq<u8>, p: int)
    requires
        parse_sid(b, p) is Some,
    ensures
        match parse_sid(b, p) {
            Some((v, end)) => v.sub_authorities.len() == v.sub_authority_count && end == p
                + sid_size(v.sub_authority_count),
            None => false,
        },
{
}

/// How a decode of a SID from a cursor ends: as `parse_sid` says, else with an I/O error.
pub open spec fn sid_read(before: &ByteCursor, after: &ByteCursor, r: Result<Sid, Error>) -> bool {
    &&& after.bytes() == before.bytes()
    &&& match parse_sid(before.bytes(), before.pos()) {
        Some((v, end)) => r is Ok && r->Ok_0@ == v && after.pos() == end,
        None => r is Err && r->Err_0 == Error::IoError,
    }
}

/// A security identifier.
///
/// Only a decode makes one, so the count field always equals the number of sub-authorities
/// held (see `lemma_sid_count_agrees`).
#[derive(Clone, Debug, PartialEq, PartialOrd)]
pub struct Sid {
    revision_number: u8,
    sub_authority_count: u8,
    authority: Authority,
    sub_authorities: SubAuthorityList,
}

impl View for Sid {
    type V = SidView;

    closed spec fn view(&self) -> SidView {
        SidView {
            revision_number: self.revision_number,
            sub_authority_count: self.sub_authority_count,
            authority: self.authority.0,
            sub_authorities: self.sub_authorities.values(),
        }
    }
}

impl Sid {
    /// Decodes a SID from the start of `buffer`.
    pub fn from_buffer(buffer: &[u8]) -> (r: Result<Sid, Error>)
        ensures
            match parse_sid(buffer@, 0) {
                Some((v, _)) => r is Ok && r->Ok_0@ == v,
                None => r is Err && r->Err_0 == Error::IoError,
            },
    {
        let mut reader = ByteCursor::new(buffer);
        Self::from_reader(&mut reader)
    }

    /// Decodes a SID at the reader's position and moves past it.
    pub fn from_reader(reader: &mut ByteCursor) -> (r: Result<Sid, Error>)
        ensures
            sid_read(old(reader), final(reader), r),
    {
        let ghost b = reader.bytes();
        let ghost p = reader.pos();
        let revision_number = match reader.read_u8() {
            Ok(v) => v,
            Err(e) => return Err(e),
        };
        let sub_authority_count = match reader.read_u8() {
            Ok(v) => v,
            Err(e) => return Err(e),
        };
        let authority = match Authority::from_reader(reader) {
            Ok(v) => v,
            Err(e) => return Err(e),
        };
        let sub_authorities = match SubAuthorityList::from_reader(reader, sub_authority_count) {
            Ok(v) => v,
            Err(e) => return Err(e),
        };
        let sid = Sid { revision_number, sub_authority_count, authority, sub_authorities };
        assert(sid@ == SidView {
            revision_number: b[p],
            sub_authority_count: b[p + 1],
            authority: be_u48(b, p + 2),
            sub_authorities: sub_authorities_at(b, p + 8, b[p + 1] as nat),
        });
        assert(parse_sid(b, p as int) == Some((sid@, p + sid_size(sub_authority_count))));
        Ok(sid)
    }

    /// The canonical text form, `S-1-5-21-...`.
    pub fn to_string(&self) -> (r: String)
        ensures
            r@ == sid_text(self@),
    {
        proof {
            reveal_strlit("S-");
            reveal_strlit("-");
        }
        let mut s = String::new();
        s.append("S-");
        push_decimal(&mut s, self.revision_number as u64);
        s.append("-");
        push_decimal(&mut s, self.authority.0);
        let subs = self.sub_authorities.to_string();
        s.append(subs.as_str());
        assert(s@ =~= sid_text(self@));
        s
    }
}

} // verus!
