//! The authority and sub-authority fields of a SID.
use vstd::prelude::*;
use crate::cursor::{ByteCursor, be_u48, le_u32};
use crate::err::Error;
use crate::text::{decimal, decimal_string, push_decimal};

verus! {

/// The values of the `n` little-endian sub-authorities stored in `b` from `p` on.
pub open spec fn sub_authorities_at(b: Seq<u8>, p: int, n: nat) -> Seq<u32> {
    Seq::new(n, |i: int| le_u32(b, p + 4 * i))
}

/// The values of a sequence of sub-authorities.
pub open spec fn sub_values(subs: Seq<SubAuthority>) -> Seq<u32> {
    subs.map_values(|s: SubAuthority| s.0)
}

/// Each sub-authority in decimal, each one preceded by `-`.
pub open spec fn sub_authorities_text(subs: Seq<u32>) -> Seq<char>
    decreases subs.len(),
{
    if subs.len() == 0 {
        Seq::empty()
    } else {
        sub_authorities_text(subs.drop_last()) + seq!['-'] + decimal(subs.last() as nat)
    }
}

/// The identifier authority of a SID: a 48-bit value, widened to 64 bits.
#[derive(Clone, Copy, Debug, PartialEq, Eq, PartialOrd, Structural)]
pub struct Authority(pub u64);

impl Authority {
    /// Decodes an authority from the first six bytes of `buffer`.
    pub fn from_buffer(buffer: &[u8]) -> (r: Result<Authority, Error>)
        ensures
            buffer@.len() >= 6 ==> r == Ok::<Authority, Error>(Authority(be_u48(buffer@, 0))),
            buffer@.len() < 6 ==> r == Err::<Authority, Error>(Error::IoError),
    {
        let mut reader = ByteCursor::new(buffer);
        Self::from_reader(&mut reader)
    }

    /// Decodes an authority: six bytes, big-endian.
    pub fn from_reader(reader: &mut ByteCursor) -> (r: Result<Authority, Error>)
        ensures
            old(reader).advanced(final(reader), r is Ok, 6),
            old(reader).has(6) ==> r == Ok::<Authority, Error>(
                Authority(be_u48(old(reader).bytes(), old(reader).pos())),
            ),
            !old(reader).has(6) ==> r == Err::<Authority, Error>(Error::IoError),
    {
        match reader.read_u48_be() {
            Ok(v) => Ok(Authority(v)),
            Err(e) => Err(e),
        }
    }

    /// The value in decimal.
    pub fn to_string(&self) -> (r: String)
        ensures
            r@ == decimal(self.0 as nat),
    {
        decimal_string(self.0)
    }
}

/// One sub-authority (relative identifier) of a SID.
#[derive(Clone, Copy, Debug, PartialEq, Eq, PartialOrd, Structural)]
pub struct SubAuthority(pub u32);

impl SubAuthority {
    /// Decodes a sub-authority from the first four bytes of `buffer`.
    pub fn from_buffer(buffer: &[u8]) -> (r: Result<SubAuthority, Error>)
        ensures
            buffer@.len() >= 4 ==> r == Ok::<SubAuthority, Error>(
                SubAuthority(le_u32(buffer@, 0)),
            ),
            buffer@.len() < 4 ==> r == Err::<SubAuthority, Error>(Error::IoError),
    {
        let mut reader = ByteCursor::new(buffer);
        Self::from_reader(&mut reader)
    }

    /// Decodes a sub-authority: four bytes, little-endian.
    pub fn from_reader(reader: &mut ByteCursor) -> (r: Result<SubAuthority, Error>)
        ensures
            old(reader).advanced(final(reader), r is Ok, 4),
            old(reader).has(4) ==> r == Ok::<SubAuthority, Error>(
                SubAuthority(le_u32(old(reader).bytes(), old(reader).pos())),
            ),
            !old(reader).has(4) ==> r == Err::<SubAuthority, Error>(Error::IoError),
    {
        match reader.read_u32_le() {
            Ok(v) => Ok(SubAuthority(v)),
            Err(e) => Err(e),
        }
    }

    /// The value in decimal.
    pub fn to_string(&self) -> (r: String)
        ensures
            r@ == decimal(self.0 as nat),
    {
        decimal_string(self.0 as u64)
    }
}

/// The sub-authorities of a SID, in the order they were stored.
#[derive(Clone, Debug, PartialEq, PartialOrd)]
pub struct SubAuthorityList(pub Vec<SubAuthority>);

impl SubAuthorityList {
    /// The values of the sub-authorities, in order.
    pub open spec fn values(&self) -> Seq<u32> {
        sub_values(self.0@)
    }

    /// Decodes `count` sub-authorities from the start of `buffer`.
    pub fn from_buffer(buffer: &[u8], count: u8) -> (r: Result<SubAuthorityList, Error>)
        ensures
            4 * count <= buffer@.len() ==> r is Ok && r->Ok_0.values() == sub_authorities_at(
                buffer@,
                0,
                count as nat,
            ),
            4 * count > buffer@.len() ==> r is Err && r->Err_0 == Error::IoError,
    {
        let mut reader = ByteCursor::new(buffer);
        Self::from_reader(&mut reader, count)
    }

    /// Decodes `count` sub-authorities, each four bytes little-endian, in sequence.
    pub fn from_reader(reader: &mut ByteCursor, count: u8) -> (r: Result<SubAuthorityList, Error>)
        ensures
            old(reader).advanced(final(reader), r is Ok, 4 * count),
            old(reader).has(4 * count) ==> r is Ok && r->Ok_0.values() == sub_authorities_at(
                old(reader).bytes(),
                old(reader).pos(),
                count as nat,
            ),
            !old(reader).has(4 * count) ==> r is Err && r->Err_0 == Error::IoError,
    {
        let pos = reader.tell();
        let len = reader.len();
        if pos > len || len - pos < 4 * (count as usize) {
            return Err(Error::IoError);
        }
        let ghost b = reader.bytes();
        let mut list: Vec<SubAuthority> = Vec::with_capacity(count as usize);
        let mut i: u8 = 0;
        while i < count
            invariant
                i <= count,
                reader.bytes() == b,
                b.len() == len,
                pos + 4 * count <= len,
                reader.pos() == pos + 4 * i,
                list@.len() == i,
                sub_values(list@) == sub_authorities_at(b, pos as int, i as nat),
            decreases count - i,
        {
            let ghost before = list@;
            let sub = reader.read_u32_le();
            match sub {
                Ok(v) => {
                    assert(v == le_u32(b, pos + 4 * i));
                    list.push(SubAuthority(v));
                },
                Err(e) => {
                    return Err(e);
                },
            }
            assert forall|j: int| 0 <= j < i + 1 implies sub_values(list@)[j] == sub_authorities_at(
                b,
                pos as int,
                (i + 1) as nat,
            )[j] by {
                if j < i {
                    assert(list@[j] == before[j]);
                    assert(sub_values(before)[j] == sub_authorities_at(b, pos as int, i as nat)[j]);
                }
            }
            assert(sub_values(list@) =~= sub_authorities_at(b, pos as int, (i + 1) as nat));
            i = i + 1;
        }
        Ok(SubAuthorityList(list))
    }

    /// Each sub-authority in decimal, each one preceded by `-` (`-18-544`).
    pub fn to_string(&self) -> (r: String)
        ensures
            r@ == sub_authorities_text(self.values()),
    {
        let mut s = String::new();
        let mut i: usize = 0;
        while i < self.0.len()
            invariant
                i <= self.0@.len(),
                s@ == sub_authorities_text(self.values().take(i as int)),
            decreases self.0@.len() - i,
        {
            proof {
                reveal_strlit("-");
            }
            s.append("-");
            push_decimal(&mut s, self.0[i].0 as u64);
            assert(self.values().take(i + 1).drop_last() =~= self.values().take(i as int));
            i = i + 1;
        }
        assert(self.values().take(i as int) =~= self.values());
        s
    }
}

} // verus!
