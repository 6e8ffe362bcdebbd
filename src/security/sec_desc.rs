//! Security descriptors.
//! Layout: <https://github.com/libyal/libfwnt/wiki/Security-Descriptor>
use vstd::prelude::*;
use crate::cursor::{ByteCursor, le_u16, le_u32};
use crate::err::Error;
use crate::security::ace::{AceView, parse_ace};
use crate::security::acl::{Acl, AclView, parse_aces, parse_acl};
use crate::security::authority::sub_authorities_at;
use crate::security::flags::SdControlFlags;
use crate::security::sid::{Sid, SidView, parse_sid};

verus! {

broadcast use crate::cursor::lemma_pos_nonneg;

/// The fixed 20-byte header of a security descriptor.
///
/// The four offsets count from the first byte of the header.
#[derive(Clone, Copy, Debug, PartialEq, Eq, Structural)]
pub struct SecDescHeader {
    pub revision_number: u8,
    pub padding1: u8,
    pub control_flags: SdControlFlags,
    pub owner_sid_offset: u32,
    pub group_sid_offset: u32,
    pub sacl_offset: u32,
    pub dacl_offset: u32,
}

/// The header encoded in `b` at `p`; `None` when `b` ends first.
///
/// Layout: revision (1 byte), padding (1 byte), control flags (2 bytes), then the owner, group,
/// SACL and DACL offsets (4 bytes each), all little-endian. The SACL offset comes before the
/// DACL offset, as in the descriptors found on disk.
pub open spec fn parse_header(b: Seq<u8>, p: int) -> Option<SecDescHeader> {
    if 0 <= p && p + 20 <= b.len() {
        Some(
            SecDescHeader {
                revision_number: b[p],
                padding1: b[p + 1],
                control_flags: SdControlFlags { bits: le_u16(b, p + 2) & SdControlFlags::ALL },
                owner_sid_offset: le_u32(b, p + 4),
                group_sid_offset: le_u32(b, p + 8),
                sacl_offset: le_u32(b, p + 12),
                dacl_offset: le_u32(b, p + 16),
            },
        )
    } else {
        None
    }
}

impl SecDescHeader {
    /// Decodes a header from the start of `buffer`.
    pub fn from_buffer(buffer: &[u8]) -> (r: Result<SecDescHeader, Error>)
        ensures
            match parse_header(buffer@, 0) {
                Some(h) => r == Ok::<SecDescHeader, Error>(h),
                None => r == Err::<SecDescHeader, Error>(Error::IoError),
            },
    {
        let mut reader = ByteCursor::new(buffer);
        Self::from_reader(&mut reader)
    }

    /// Decodes a header at the reader's position and moves past it.
    pub fn from_reader(reader: &mut ByteCursor) -> (r: Result<SecDescHeader, Error>)
        ensures
            final(reader).bytes() == old(reader).bytes(),
            match parse_header(old(reader).bytes(), old(reader).pos()) {
                Some(h) => r == Ok::<SecDescHeader, Error>(h) && final(reader).pos() == old(
                    reader,
                ).pos() + 20,
                None => r == Err::<SecDescHeader, Error>(Error::IoError),
            },
    {
        let revision_number = match reader.read_u8() {
            Ok(v) => v,
            Err(e) => return Err(e),
        };
        let padding1 = match reader.read_u8() {
            Ok(v) => v,
            Err(e) => return Err(e),
        };
        let control_flags = match reader.read_u16_le() {
            Ok(v) => SdControlFlags::from_bits_truncate(v),
            Err(e) => return Err(e),
        };
        let owner_sid_offset = match reader.read_u32_le() {
            Ok(v) => v,
            Err(e) => return Err(e),
        };
        let group_sid_offset = match reader.read_u32_le() {
            Ok(v) => v,
            Err(e) => return Err(e),
        };
        let sacl_offset = match reader.read_u32_le() {
            Ok(v) => v,
            Err(e) => return Err(e),
        };
        let dacl_offset = match reader.read_u32_le() {
            Ok(v) => v,
            Err(e) => return Err(e),
        };
        Ok(
            SecDescHeader {
                revision_number,
                padding1,
                control_flags,
                owner_sid_offset,
                group_sid_offset,
                sacl_offset,
                dacl_offset,
            },
        )
    }
}

/// A security descriptor as plain values.
pub struct SecurityDescriptorView {
    pub header: SecDescHeader,
    pub owner_sid: SidView,
    pub group_sid: SidView,
    pub dacl: Option<AclView>,
    pub sacl: Option<AclView>,
}

/// The ACL at `base + offset`, absent when `offset` is zero.
pub open spec fn optional_acl(b: Seq<u8>, base: int, offset: u32) -> Result<Option<AclView>, Error> {
    if offset == 0 {
        Ok(None)
    } else {
        match parse_acl(b, base + offset) {
            Ok((acl, _)) => Ok(Some(acl)),
            Err(e) => Err(e),
        }
    }
}

/// The security descriptor whose header is encoded in `b` at `base`, or why it cannot be
/// decoded.
///
/// Its parts are found at `base` plus the header's offsets and decoded in this order: owner,
/// group, DACL, SACL. An ACL is absent exactly when its offset is zero, whatever the control
/// flags say.
pub open spec fn parse_security_descriptor(b: Seq<u8>, base: int) -> Result<
    SecurityDescriptorView,
    Error,
> {
    match parse_header(b, base) {
        None => Err(Error::IoError),
        Some(h) => match parse_sid(b, base + h.owner_sid_offset) {
            None => Err(Error::IoError),
            Some((owner_sid, _)) => match parse_sid(b, base + h.group_sid_offset) {
                None => Err(Error::IoError),
                Some((group_sid, _)) => match optional_acl(b, base, h.dacl_offset) {
                    Err(e) => Err(e),
                    Ok(dacl) => match optional_acl(b, base, h.sacl_offset) {
                        Err(e) => Err(e),
                        Ok(sacl) => Ok(
                            SecurityDescriptorView { header: h, owner_sid, group_sid, dacl, sacl },
                        ),
                    },
                },
            },
        },
    }
}

/// The view of an optional ACL.
pub open spec fn opt_acl_view(a: Option<Acl>) -> Option<AclView> {
    match a {
        Some(a) => Some(a@),
        None => None,
    }
}

/// A security descriptor: header, owner and group SIDs, and the optional ACLs.
#[derive(Clone, Debug, PartialEq)]
pub struct SecurityDescriptor {
    pub header: SecDescHeader,
    pub owner_sid: Sid,
    pub group_sid: Sid,
    pub dacl: Option<Acl>,
    pub sacl: Option<Acl>,
}

impl View for SecurityDescriptor {
    type V = SecurityDescriptorView;

    open spec fn view(&self) -> SecurityDescriptorView {
        SecurityDescriptorView {
            header: self.header,
            owner_sid: self.owner_sid@,
            group_sid: self.group_sid@,
            dacl: opt_acl_view(self.dacl),
            sacl: opt_acl_view(self.sacl),
        }
    }
}

/// Moves `stream` to `base + offset`; fails when that position cannot be represented.
fn seek_relative(stream: &mut ByteCursor, base: usize, offset: u32) -> (r: Result<(), Error>)
    ensures
        final(stream).bytes() == old(stream).bytes(),
        r is Ok ==> final(stream).pos() == base + offset,
        r is Err ==> r->Err_0 == Error::IoError && base + offset > usize::MAX,
{
    match base.checked_add(offset as usize) {
        Some(target) => {
            stream.seek(target);
            Ok(())
        },
        None => Err(Error::IoError),
    }
}

/// Decodes the ACL at `base + offset`, or nothing when `offset` is zero.
fn read_optional_acl(stream: &mut ByteCursor, base: usize, offset: u32) -> (r: Result<
    Option<Acl>,
    Error,
>)
    requires
        old(stream).bytes().len() <= usize::MAX,
    ensures
        final(stream).bytes() == old(stream).bytes(),
        match optional_acl(old(stream).bytes(), base as int, offset) {
            Ok(v) => r is Ok && opt_acl_view(r->Ok_0) == v,
            Err(e) => r is Err && r->Err_0 == e,
        },
{
    if offset == 0 {
        return Ok(None);
    }
    match seek_relative(stream, base, offset) {
        Ok(()) => {},
        Err(e) => return Err(e),
    }
    match Acl::from_reader(stream) {
        Ok(acl) => Ok(Some(acl)),
        Err(e) => Err(e),
    }
}

impl SecurityDescriptor {
    /// Decodes a security descriptor whose header starts at the stream's position.
    ///
    /// Each part is found by seeking to the header's start plus its offset; the stream's
    /// position afterwards is left wherever the last part ended.
    pub fn from_stream(stream: &mut ByteCursor) -> (r: Result<SecurityDescriptor, Error>)
        ensures
            final(stream).bytes() == old(stream).bytes(),
            decoded_from(old(stream).bytes(), old(stream).pos(), r),
    {
        let start_offset = stream.tell();
        // The buffer's length fits in usize; the ACL reads below rely on that.
        let _len: usize = stream.len();
        let header = match SecDescHeader::from_reader(stream) {
            Ok(h) => h,
            Err(e) => return Err(e),
        };
        match seek_relative(stream, start_offset, header.owner_sid_offset) {
            Ok(()) => {},
            Err(e) => return Err(e),
        }
        let owner_sid = match Sid::from_reader(stream) {
            Ok(s) => s,
            Err(e) => return Err(e),
        };
        match seek_relative(stream, start_offset, header.group_sid_offset) {
            Ok(()) => {},
            Err(e) => return Err(e),
        }
        let group_sid = match Sid::from_reader(stream) {
            Ok(s) => s,
            Err(e) => return Err(e),
        };
        let dacl = match read_optional_acl(stream, start_offset, header.dacl_offset) {
            Ok(a) => a,
            Err(e) => return Err(e),
        };
        let sacl = match read_optional_acl(stream, start_offset, header.sacl_offset) {
            Ok(a) => a,
            Err(e) => return Err(e),
        };
        Ok(SecurityDescriptor { header, owner_sid, group_sid, dacl, sacl })
    }

    /// Decodes a security descriptor from the start of `buffer`.
    pub fn from_buffer(buffer: &[u8]) -> (r: Result<SecurityDescriptor, Error>)
        ensures
            decoded_from(buffer@, 0, r),
    {
        let mut stream = ByteCursor::new(buffer);
        Self::from_stream(&mut stream)
    }
}

/// Whether `r` is what decoding the descriptor at `base` in `b` gives, as
/// `parse_security_descriptor` says.
pub open spec fn decoded_from(b: Seq<u8>, base: int, r: Result<SecurityDescriptor, Error>) -> bool {
    match parse_security_descriptor(b, base) {
        Ok(v) => r is Ok && r->Ok_0@ == v,
        Err(e) => r is Err && r->Err_0 == e,
    }
}

/// Decoding depends on the bytes and the start position alone: two decodes of the same buffer
/// from the same position succeed or fail together, with equal descriptors or the same error.
pub proof fn lemma_decode_deterministic(
    b: Seq<u8>,
    base: int,
    r1: Result<SecurityDescriptor, Error>,
    r2: Result<SecurityDescriptor, Error>,
)
    requires
        decoded_from(b, base, r1),
        decoded_from(b, base, r2),
    ensures
        r1 is Ok <==> r2 is Ok,
        r1 is Ok ==> r1->Ok_0@ == r2->Ok_0@,
        r1 is Err ==> r1->Err_0 == r2->Err_0,
{
}

/// A decoded descriptor has a DACL exactly when the header's DACL offset is nonzero, and a SACL
/// exactly when its SACL offset is nonzero; the control flags play no part.
pub proof fn lemma_acl_present_iff_offset_nonzero(b: Seq<u8>, base: int)
    requires
        parse_security_descriptor(b, base) is Ok,
    ensures
        match parse_security_descriptor(b, base) {
            Ok(v) => {
                &&& (v.dacl is None <==> v.header.dacl_offset == 0)
                &&& (v.sacl is None <==> v.header.sacl_offset == 0)
            },
            Err(_) => false,
        },
{
}

/// `b1` and `b2` have the same length and the same bytes from `q` on.
pub open spec fn agree_from(b1: Seq<u8>, b2: Seq<u8>, q: int) -> bool {
    &&& b1.len() == b2.len()
    &&& forall|i: int| q <= i < b1.len() ==> b1[i] == b2[i]
}

proof fn lemma_sid_frame(b1: Seq<u8>, b2: Seq<u8>, q: int, p: int)
    requires
        agree_from(b1, b2, q),
        q <= p,
    ensures
        parse_sid(b1, p) == parse_sid(b2, p),
{
    if parse_sid(b1, p) is Some {
        let n = b1[p + 1] as nat;
        assert(sub_authorities_at(b1, p + 8, n) =~= sub_authorities_at(b2, p + 8, n));
    }
}

proof fn lemma_ace_frame(b1: Seq<u8>, b2: Seq<u8>, q: int, p: int)
    requires
        agree_from(b1, b2, q),
        q <= p,
    ensures
        parse_ace(b1, p) == parse_ace(b2, p),
        parse_ace(b1, p) matches Ok((_, end)) ==> end >= p,
{
    if 0 <= p && p + 4 <= b1.len() {
        let size = b1[p + 2] as int + b1[p + 3] as int * 0x100;
        if 4 <= size && p + size <= b1.len() {
            assert(b1.subrange(p + 4, p + size) =~= b2.subrange(p + 4, p + size));
        }
    }
}

proof fn lemma_aces_frame(b1: Seq<u8>, b2: Seq<u8>, q: int, p: int, n: nat)
    requires
        agree_from(b1, b2, q),
        q <= p,
    ensures
        parse_aces(b1, p, n) == parse_aces(b2, p, n),
        parse_aces(b1, p, n) matches Ok((_, end)) ==> end >= p,
    decreases n,
{
    if n > 0 {
        lemma_aces_frame(b1, b2, q, p, (n - 1) as nat);
        if let Ok((_, r)) = parse_aces(b1, p, (n - 1) as nat) {
            lemma_ace_frame(b1, b2, q, r);
        }
    }
}

proof fn lemma_optional_acl_frame(b1: Seq<u8>, b2: Seq<u8>, q: int, base: int, offset: u32)
    requires
        agree_from(b1, b2, q),
        offset != 0 ==> q <= base + offset,
    ensures
        optional_acl(b1, base, offset) == optional_acl(b2, base, offset),
{
    if offset != 0 {
        let p = base + offset;
        if 0 <= p && p + 8 <= b1.len() {
            lemma_aces_frame(b1, b2, q, p + 8, (b1[p + 4] as int + b1[p + 5] as int * 0x100) as nat);
        }
    }
}

/// Two buffers that differ only in the two control-flag bytes of the header decode alike: both
/// fail with the same error, or both give the same SIDs and the same ACLs, each ACL present or
/// absent in both. Parts that start inside the first four bytes of the header would read the
/// flags themselves, so they are left out.
pub proof fn lemma_control_flags_do_not_decide_presence(b1: Seq<u8>, b2: Seq<u8>, base: int)
    requires
        0 <= base,
        b1.len() == b2.len(),
        forall|i: int| 0 <= i < b1.len() && i != base + 2 && i != base + 3 ==> b1[i] == b2[i],
        parse_header(b1, base) matches Some(h) && h.owner_sid_offset >= 4 && h.group_sid_offset
            >= 4 && (h.dacl_offset == 0 || h.dacl_offset >= 4) && (h.sacl_offset == 0
            || h.sacl_offset >= 4),
    ensures
        match (parse_security_descriptor(b1, base), parse_security_descriptor(b2, base)) {
            (Ok(v1), Ok(v2)) => {
                &&& v1.header.owner_sid_offset == v2.header.owner_sid_offset
                &&& v1.header.group_sid_offset == v2.header.group_sid_offset
                &&& v1.header.dacl_offset == v2.header.dacl_offset
                &&& v1.header.sacl_offset == v2.header.sacl_offset
                &&& v1.owner_sid == v2.owner_sid
                &&& v1.group_sid == v2.group_sid
                &&& v1.dacl == v2.dacl
                &&& v1.sacl == v2.sacl
            },
            (Err(e1), Err(e2)) => e1 == e2,
            _ => false,
        },
{
    let h1 = parse_header(b1, base)->Some_0;
    let h2 = parse_header(b2, base)->Some_0;
    assert(h1.owner_sid_offset == h2.owner_sid_offset);
    assert(h1.group_sid_offset == h2.group_sid_offset);
    assert(h1.sacl_offset == h2.sacl_offset);
    assert(h1.dacl_offset == h2.dacl_offset);
    let q = base + 4;
    lemma_sid_frame(b1, b2, q, base + h1.owner_sid_offset);
    lemma_sid_frame(b1, b2, q, base + h1.group_sid_offset);
    lemma_optional_acl_frame(b1, b2, q, base, h1.dacl_offset);
    lemma_optional_acl_frame(b1, b2, q, base, h1.sacl_offset);
}

} // verus!
