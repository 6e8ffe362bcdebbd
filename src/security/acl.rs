//! Access control lists.
//! Layout: <https://github.com/libyal/libfwnt/wiki/Security-Descriptor#access-control-list-acl>
use vstd::prelude::*;
use crate::cursor::{ByteCursor, le_u16};
use crate::err::Error;
use crate::security::ace::{Ace, AceView, parse_ace};

verus! {

broadcast use crate::cursor::lemma_pos_nonneg;

/// An ACL as plain values.
pub struct AclView {
    pub revision: u8,
    pub padding1: u8,
    pub size: u16,
    pub count: u16,
    pub padding2: u16,
    pub entries: Seq<AceView>,
}

/// The views of a sequence of ACEs.
pub open spec fn ace_views(aces: Seq<Ace>) -> Seq<AceView> {
    aces.map_values(|a: Ace| a@)
}

/// The `n` ACEs encoded one after another in `b` from `p` on, and the position past the last;
/// or the error of the first one that cannot be decoded.
pub open spec fn parse_aces(b: Seq<u8>, p: int, n: nat) -> Result<(Seq<AceView>, int), Error>
    decreases n,
{
    if n == 0 {
        Ok((Seq::empty(), p))
    } else {
        match parse_aces(b, p, (n - 1) as nat) {
            Ok((aces, q)) => match parse_ace(b, q) {
                Ok((ace, end)) => Ok((aces.push(ace), end)),
                Err(e) => Err(e),
            },
            Err(e) => Err(e),
        }
    }
}

/// The ACL encoded in `b` at `p` and the position past its last ACE, or why it cannot be
/// decoded.
///
/// Layout: revision (1 byte), padding (1 byte), size (2 bytes), count (2 bytes), padding
/// (2 bytes), all little-endian, then `count` ACEs. The declared size is not checked against
/// the bytes that the ACEs take.
pub open spec fn parse_acl(b: Seq<u8>, p: int) -> Result<(AclView, int), Error> {
    if !(0 <= p && p + 8 <= b.len()) {
        Err(Error::IoError)
    } else {
        match parse_aces(b, p + 8, le_u16(b, p + 4) as nat) {
            Ok((entries, end)) => Ok(
                (
                    AclView {
                        revision: b[p],
                        padding1: b[p + 1],
                        size: le_u16(b, p + 2),
                        count: le_u16(b, p + 4),
                        padding2: le_u16(b, p + 6),
                        entries,
                    },
                    end,
                ),
            ),
            Err(e) => Err(e),
        }
    }
}

/// Once an ACE of a list fails to decode, so does every longer list.
proof fn lemma_parse_aces_error_persists(b: Seq<u8>, p: int, i: nat, n: nat)
    requires
        i <= n,
        parse_aces(b, p, i) is Err,
    ensures
        parse_aces(b, p, n) == parse_aces(b, p, i),
    decreases n - i,
{
    if i < n {
        lemma_parse_aces_error_persists(b, p, i, (n - 1) as nat);
    }
}

/// A list decoded from a count of `n` holds `n` entries.
pub proof fn lemma_parse_aces_len(b: Seq<u8>, p: int, n: nat)
    requires
        parse_aces(b, p, n) is Ok,
    ensures
        match parse_aces(b, p, n) {
            Ok((aces, _)) => aces.len() == n,
            Err(_) => false,
        },
    decreases n,
{
    if n > 0 {
        lemma_parse_aces_len(b, p, (n - 1) as nat);
    }
}

/// An access control list.
#[derive(Clone, Debug, PartialEq)]
pub struct Acl {
    pub revision: u8,
    pub padding1: u8,
    /// The declared length of the list in bytes.
    pub size: u16,
    /// The number of entries; always the length of `entries`.
    pub count: u16,
    pub padding2: u16,
    pub entries: Vec<Ace>,
}

impl View for Acl {
    type V = AclView;

    open spec fn view(&self) -> AclView {
        AclView {
            revision: self.revision,
            padding1: self.padding1,
            size: self.size,
            count: self.count,
            padding2: self.padding2,
            entries: ace_views(self.entries@),
        }
    }
}

/// How a decode of an ACL from a cursor ends: as `parse_acl` says.
pub open spec fn acl_read(before: &ByteCursor, after: &ByteCursor, r: Result<Acl, Error>) -> bool {
    &&& after.bytes() == before.bytes()
    &&& match parse_acl(before.bytes(), before.pos()) {
        Ok((v, end)) => r is Ok && r->Ok_0@ == v && after.pos() == end,
        Err(e) => r is Err && r->Err_0 == e,
    }
}

impl Acl {
    /// Decodes an ACL at the reader's position and moves past its last ACE.
    ///
    /// Exactly `count` ACEs are decoded, in order; the first that fails ends the decode.
    pub fn from_reader(reader: &mut ByteCursor) -> (r: Result<Acl, Error>)
        ensures
            acl_read(old(reader), final(reader), r),
            r is Ok ==> r->Ok_0.entries@.len() == r->Ok_0.count,
    {
        let ghost b = reader.bytes();
        let ghost p = reader.pos();
        let revision = match reader.read_u8() {
            Ok(v) => v,
            Err(e) => return Err(e),
        };
        let padding1 = match reader.read_u8() {
            Ok(v) => v,
            Err(e) => return Err(e),
        };
        let size = match reader.read_u16_le() {
            Ok(v) => v,
            Err(e) => return Err(e),
        };
        let count = match reader.read_u16_le() {
            Ok(v) => v,
            Err(e) => return Err(e),
        };
        let padding2 = match reader.read_u16_le() {
            Ok(v) => v,
            Err(e) => return Err(e),
        };
        let mut entries: Vec<Ace> = Vec::new();
        let mut i: u16 = 0;
        assert(ace_views(entries@) =~= Seq::<AceView>::empty());
        while i < count
            invariant
                i <= count,
                reader.bytes() == b,
                b == old(reader).bytes(),
                p == old(reader).pos(),
                p + 8 <= b.len(),
                count == le_u16(b, p + 4),
                parse_aces(b, p + 8, i as nat) == Ok::<(Seq<AceView>, int), Error>(
                    (ace_views(entries@), reader.pos()),
                ),
            decreases count - i,
        {
            let ghost before = entries@;
            match Ace::from_reader(reader) {
                Ok(ace) => {
                    entries.push(ace);
                    assert(ace_views(entries@) =~= ace_views(before).push(ace@));
                },
                Err(e) => {
                    assert(parse_aces(b, p + 8, (i + 1) as nat) == Err::<(Seq<AceView>, int), Error>(e));
                    proof {
                        lemma_parse_aces_error_persists(b, p + 8, (i + 1) as nat, count as nat);
                    }
                    assert(parse_acl(b, p) == Err::<(AclView, int), Error>(e));
                    return Err(e);
                },
            }
            i = i + 1;
        }
        proof {
            lemma_parse_aces_len(b, p + 8, count as nat);
        }
        Ok(Acl { revision, padding1, size, count, padding2, entries })
    }
}

/// Whether an optional ACL has nothing to report: it is absent or holds no entries.
pub fn check_acl(acl_option: &Option<Acl>) -> (r: bool)
    ensures
        r == match acl_option {
            Some(acl) => acl.count == 0,
            None => true,
        },
{
    match acl_option {
        Some(acl) => acl.count == 0,
        None => true,
    }
}

} // verus!
