//! Access control entries.
//! Layout: <https://github.com/libyal/libfwnt/wiki/Security-Descriptor#access-control-entry-ace>
use vstd::prelude::*;
use crate::cursor::{ByteCursor, le_u16, le_u32};
use crate::err::Error;
use crate::guid::{Guid, GuidView, parse_guid};
use crate::security::flags::{AceFlags, AceObjectFlags};
use crate::security::sid::{Sid, SidView, parse_sid};

verus! {

broadcast use crate::cursor::lemma_pos_nonneg;

/// The kind of an ACE, from its type byte.
#[derive(Clone, Copy, Debug, PartialEq, Eq, Structural)]
pub enum AceType {
    AccessAllowed,
    AccessDenied,
    SystemAudit,
    SystemAlarm,
    AccessAllowedCompound,
    AccessAllowedObject,
    AccessDeniedObject,
    SystemAuditObject,
    SystemAlarmObject,
    AccessAllowedCallback,
    AccessDeniedCallback,
    AccessAllowedCallbackObject,
    AccessDeniedCallbackObject,
    SystemAuditCallback,
    SystemAlarmCallback,
    SystemAuditCallbackObject,
    SystemAlarmCallbackObject,
    SystemMandatoryLabel,
}

/// The ACE type that the byte `b` stands for, if any.
pub open spec fn ace_type_of(b: u8) -> Option<AceType> {
    match b {
        0x00 => Some(AceType::AccessAllowed),
        0x01 => Some(AceType::AccessDenied),
        0x02 => Some(AceType::SystemAudit),
        0x03 => Some(AceType::SystemAlarm),
        0x04 => Some(AceType::AccessAllowedCompound),
        0x05 => Some(AceType::AccessAllowedObject),
        0x06 => Some(AceType::AccessDeniedObject),
        0x07 => Some(AceType::SystemAuditObject),
        0x08 => Some(AceType::SystemAlarmObject),
        0x09 => Some(AceType::AccessAllowedCallback),
        0x0a => Some(AceType::AccessDeniedCallback),
        0x0b => Some(AceType::AccessAllowedCallbackObject),
        0x0c => Some(AceType::AccessDeniedCallbackObject),
        0x0d => Some(AceType::SystemAuditCallback),
        0x0e => Some(AceType::SystemAlarmCallback),
        0x0f => Some(AceType::SystemAuditCallbackObject),
        0x10 => Some(AceType::SystemAlarmCallbackObject),
        0x11 => Some(AceType::SystemMandatoryLabel),
        _ => None,
    }
}

/// The type byte of `t`.
pub open spec fn ace_type_code(t: AceType) -> u8 {
    match t {
        AceType::AccessAllowed => 0x00,
        AceType::AccessDenied => 0x01,
        AceType::SystemAudit => 0x02,
        AceType::SystemAlarm => 0x03,
        AceType::AccessAllowedCompound => 0x04,
        AceType::AccessAllowedObject => 0x05,
        AceType::AccessDeniedObject => 0x06,
        AceType::SystemAuditObject => 0x07,
        AceType::SystemAlarmObject => 0x08,
        AceType::AccessAllowedCallback => 0x09,
        AceType::AccessDeniedCallback => 0x0a,
        AceType::AccessAllowedCallbackObject => 0x0b,
        AceType::AccessDeniedCallbackObject => 0x0c,
        AceType::SystemAuditCallback => 0x0d,
        AceType::SystemAlarmCallback => 0x0e,
        AceType::SystemAuditCallbackObject => 0x0f,
        AceType::SystemAlarmCallbackObject => 0x10,
        AceType::SystemMandatoryLabel => 0x11,
    }
}

/// The types whose payload is an access mask and a SID.
pub open spec fn is_basic_type(t: AceType) -> bool {
    match t {
        AceType::AccessAllowed | AceType::AccessDenied | AceType::SystemAudit
        | AceType::SystemAlarm | AceType::AccessAllowedCallback | AceType::AccessDeniedCallback
        | AceType::SystemAuditCallback | AceType::SystemAlarmCallback
        | AceType::SystemMandatoryLabel => true,
        _ => false,
    }
}

/// The types whose payload is an access mask, object flags, optional GUIDs and a SID.
pub open spec fn is_object_type(t: AceType) -> bool {
    match t {
        AceType::AccessAllowedObject | AceType::AccessDeniedObject | AceType::SystemAuditObject
        | AceType::SystemAlarmObject | AceType::AccessAllowedCallbackObject
        | AceType::AccessDeniedCallbackObject | AceType::SystemAuditCallbackObject
        | AceType::SystemAlarmCallbackObject => true,
        _ => false,
    }
}

/// The name of `t`, as used in reports.
pub open spec fn ace_type_name(t: AceType) -> Seq<char> {
    match t {
        AceType::AccessAllowed => "ACCESS_ALLOWED"@,
        AceType::AccessDenied => "ACCESS_DENIED"@,
        AceType::SystemAudit => "SYSTEM_AUDIT"@,
        AceType::SystemAlarm => "SYSTEM_ALARM"@,
        AceType::AccessAllowedCompound => "ACCESS_ALLOWED_COMPOUND"@,
        AceType::AccessAllowedObject => "ACCESS_ALLOWED_OBJECT"@,
        AceType::AccessDeniedObject => "ACCESS_DENIED_OBJECT"@,
        AceType::SystemAuditObject => "SYSTEM_AUDIT_OBJECT"@,
        AceType::SystemAlarmObject => "SYSTEM_ALARM_OBJECT"@,
        AceType::AccessAllowedCallback => "ACCESS_ALLOWED_CALLBACK"@,
        AceType::AccessDeniedCallback => "ACCESS_DENIED_CALLBACK"@,
        AceType::AccessAllowedCallbackObject => "ACCESS_ALLOWED_CALLBACK_OBJECT"@,
        AceType::AccessDeniedCallbackObject => "ACCESS_DENIED_CALLBACK_OBJECT"@,
        AceType::SystemAuditCallback => "SYSTEM_AUDIT_CALLBACK"@,
        AceType::SystemAlarmCallback => "SYSTEM_ALARM_CALLBACK"@,
        AceType::SystemAuditCallbackObject => "SYSTEM_AUDIT_CALLBACK_OBJECT"@,
        AceType::SystemAlarmCallbackObject => "SYSTEM_ALARM_CALLBACK_OBJECT"@,
        AceType::SystemMandatoryLabel => "SYSTEM_MANDATORY_LABEL"@,
    }
}

impl AceType {
    /// The type that `b` stands for; `None` for a byte outside the known set.
    pub fn from_u8(b: u8) -> (r: Option<AceType>)
        ensures
            r == ace_type_of(b),
    {
        match b {
            0x00 => Some(AceType::AccessAllowed),
            0x01 => Some(AceType::AccessDenied),
            0x02 => Some(AceType::SystemAudit),
            0x03 => Some(AceType::SystemAlarm),
            0x04 => Some(AceType::AccessAllowedCompound),
            0x05 => Some(AceType::AccessAllowedObject),
            0x06 => Some(AceType::AccessDeniedObject),
            0x07 => Some(AceType::SystemAuditObject),
            0x08 => Some(AceType::SystemAlarmObject),
            0x09 => Some(AceType::AccessAllowedCallback),
            0x0a => Some(AceType::AccessDeniedCallback),
            0x0b => Some(AceType::AccessAllowedCallbackObject),
            0x0c => Some(AceType::AccessDeniedCallbackObject),
            0x0d => Some(AceType::SystemAuditCallback),
            0x0e => Some(AceType::SystemAlarmCallback),
            0x0f => Some(AceType::SystemAuditCallbackObject),
            0x10 => Some(AceType::SystemAlarmCallbackObject),
            0x11 => Some(AceType::SystemMandatoryLabel),
            _ => None,
        }
    }

    /// The type byte.
    pub fn as_u8(&self) -> (r: u8)
        ensures
            r == ace_type_code(*self),
    {
        match self {
            AceType::AccessAllowed => 0x00,
            AceType::AccessDenied => 0x01,
            AceType::SystemAudit => 0x02,
            AceType::SystemAlarm => 0x03,
            AceType::AccessAllowedCompound => 0x04,
            AceType::AccessAllowedObject => 0x05,
            AceType::AccessDeniedObject => 0x06,
            AceType::SystemAuditObject => 0x07,
            AceType::SystemAlarmObject => 0x08,
            AceType::AccessAllowedCallback => 0x09,
            AceType::AccessDeniedCallback => 0x0a,
            AceType::AccessAllowedCallbackObject => 0x0b,
            AceType::AccessDeniedCallbackObject => 0x0c,
            AceType::SystemAuditCallback => 0x0d,
            AceType::SystemAlarmCallback => 0x0e,
            AceType::SystemAuditCallbackObject => 0x0f,
            AceType::SystemAlarmCallbackObject => 0x10,
            AceType::SystemMandatoryLabel => 0x11,
        }
    }

    /// The name used in reports, such as `ACCESS_ALLOWED_OBJECT`.
    pub fn as_string(&self) -> (r: String)
        ensures
            r@ == ace_type_name(*self),
    {
        let name = match self {
            AceType::AccessAllowed => "ACCESS_ALLOWED",
            AceType::AccessDenied => "ACCESS_DENIED",
            AceType::SystemAudit => "SYSTEM_AUDIT",
            AceType::SystemAlarm => "SYSTEM_ALARM",
            AceType::AccessAllowedCompound => "ACCESS_ALLOWED_COMPOUND",
            AceType::AccessAllowedObject => "ACCESS_ALLOWED_OBJECT",
            AceType::AccessDeniedObject => "ACCESS_DENIED_OBJECT",
            AceType::SystemAuditObject => "SYSTEM_AUDIT_OBJECT",
            AceType::SystemAlarmObject => "SYSTEM_ALARM_OBJECT",
            AceType::AccessAllowedCallback => "ACCESS_ALLOWED_CALLBACK",
            AceType::AccessDeniedCallback => "ACCESS_DENIED_CALLBACK",
            AceType::AccessAllowedCallbackObject => "ACCESS_ALLOWED_CALLBACK_OBJECT",
            AceType::AccessDeniedCallbackObject => "ACCESS_DENIED_CALLBACK_OBJECT",
            AceType::SystemAuditCallback => "SYSTEM_AUDIT_CALLBACK",
            AceType::SystemAlarmCallback => "SYSTEM_ALARM_CALLBACK",
            AceType::SystemAuditCallbackObject => "SYSTEM_AUDIT_CALLBACK_OBJECT",
            AceType::SystemAlarmCallbackObject => "SYSTEM_ALARM_CALLBACK_OBJECT",
            AceType::SystemMandatoryLabel => "SYSTEM_MANDATORY_LABEL",
        };
        String::from_str(name)
    }

    /// Whether the payload is an access mask and a SID.
    pub fn is_basic(&self) -> (r: bool)
        ensures
            r == is_basic_type(*self),
    {
        match self {
            AceType::AccessAllowed | AceType::AccessDenied | AceType::SystemAudit
            | AceType::SystemAlarm | AceType::AccessAllowedCallback
            | AceType::AccessDeniedCallback | AceType::SystemAuditCallback
            | AceType::SystemAlarmCallback | AceType::SystemMandatoryLabel => true,
            _ => false,
        }
    }

    /// Whether the payload is an access mask, object flags, optional GUIDs and a SID.
    pub fn is_object(&self) -> (r: bool)
        ensures
            r == is_object_type(*self),
    {
        match self {
            AceType::AccessAllowedObject | AceType::AccessDeniedObject
            | AceType::SystemAuditObject | AceType::SystemAlarmObject
            | AceType::AccessAllowedCallbackObject | AceType::AccessDeniedCallbackObject
            | AceType::SystemAuditCallbackObject | AceType::SystemAlarmCallbackObject => true,
            _ => false,
        }
    }
}

/// The payload of a basic ACE as plain values.
pub struct AceBasicView {
    pub access_rights: u32,
    pub sid: SidView,
}

/// The payload of an object ACE as plain values.
pub struct AceObjectView {
    pub access_rights: u32,
    pub flags: AceObjectFlags,
    pub object_type: Option<GuidView>,
    pub inherited_type: Option<GuidView>,
    pub sid: SidView,
}

/// The payload of an ACE as plain values.
pub enum AceDataView {
    Basic(AceBasicView),
    Object(AceObjectView),
    Unhandled(Seq<u8>),
}

/// An ACE as plain values.
pub struct AceView {
    pub ace_type: AceType,
    pub ace_flags: AceFlags,
    pub size: u16,
    pub data: AceDataView,
}

/// A basic payload encoded in `b` at `p`, and the position just past its SID.
///
/// Layout: access mask (4 bytes, little-endian), then a SID.
pub open spec fn parse_ace_basic(b: Seq<u8>, p: int) -> Option<(AceBasicView, int)> {
    if 0 <= p && p + 4 <= b.len() {
        match parse_sid(b, p + 4) {
            Some((sid, end)) => Some((AceBasicView { access_rights: le_u32(b, p), sid }, end)),
            None => None,
        }
    } else {
        None
    }
}

/// Whether object flags `flags` announce the object-type GUID.
pub open spec fn has_object_type(flags: u32) -> bool {
    flags & AceObjectFlags::ACE_OBJECT_TYPE_PRESENT == AceObjectFlags::ACE_OBJECT_TYPE_PRESENT
}

/// Whether object flags `flags` announce the inherited-object-type GUID.
pub open spec fn has_inherited_type(flags: u32) -> bool {
    flags & AceObjectFlags::ACE_INHERITED_OBJECT_TYPE_PRESENT
        == AceObjectFlags::ACE_INHERITED_OBJECT_TYPE_PRESENT
}

/// Where the SID of an object payload at `p` starts, after the GUIDs that `flags` announce.
pub open spec fn object_sid_start(p: int, flags: u32) -> int {
    p + 8 + (if has_object_type(flags) { 16int } else { 0int }) + (if has_inherited_type(flags) {
        16int
    } else {
        0int
    })
}

/// An object payload encoded in `b` at `p`, and the position just past its SID.
///
/// Layout: access mask (4 bytes), object flags (4 bytes), both little-endian; the object-type
/// GUID when its flag is set; the inherited-object-type GUID when its flag is set; a SID.
pub open spec fn parse_ace_object(b: Seq<u8>, p: int) -> Option<(AceObjectView, int)> {
    if 0 <= p && p + 8 <= b.len() {
        let flags = le_u32(b, p + 4) & AceObjectFlags::ALL;
        let object_at = p + 8;
        let inherited_at = if has_object_type(flags) { p + 24 } else { p + 8 };
        match parse_sid(b, object_sid_start(p, flags)) {
            Some((sid, end)) => Some(
                (
                    AceObjectView {
                        access_rights: le_u32(b, p),
                        flags: AceObjectFlags { bits: flags },
                        object_type: if has_object_type(flags) {
                            parse_guid(b, object_at)
                        } else {
                            None
                        },
                        inherited_type: if has_inherited_type(flags) {
                            parse_guid(b, inherited_at)
                        } else {
                            None
                        },
                        sid,
                    },
                    end,
                ),
            ),
            None => None,
        }
    } else {
        None
    }
}

/// The payload of an ACE of type `t` held in `payload`; `None` when `payload` ends too soon.
///
/// Basic and object types are decoded; the others keep their bytes as they are.
pub open spec fn ace_data_of(t: AceType, payload: Seq<u8>) -> Option<AceDataView> {
    if is_basic_type(t) {
        match parse_ace_basic(payload, 0) {
            Some((d, _)) => Some(AceDataView::Basic(d)),
            None => None,
        }
    } else if is_object_type(t) {
        match parse_ace_object(payload, 0) {
            Some((d, _)) => Some(AceDataView::Object(d)),
            None => None,
        }
    } else {
        Some(AceDataView::Unhandled(payload))
    }
}

/// The ACE encoded in `b` at `p` and the position just past it, or why it cannot be decoded.
///
/// Layout: type (1 byte), flags (1 byte), size (2 bytes, little-endian) counting these four
/// bytes, then `size - 4` bytes of payload.
pub open spec fn parse_ace(b: Seq<u8>, p: int) -> Result<(AceView, int), Error> {
    if !(0 <= p && p + 1 <= b.len()) {
        Err(Error::IoError)
    } else if ace_type_of(b[p]) is None {
        Err(Error::UnknownAceType { ace_type: b[p] })
    } else if p + 4 > b.len() {
        Err(Error::IoError)
    } else if le_u16(b, p + 2) < 4 {
        Err(Error::InvalidAceSize { size: le_u16(b, p + 2) })
    } else if p + le_u16(b, p + 2) > b.len() {
        Err(Error::IoError)
    } else {
        let t = ace_type_of(b[p])->Some_0;
        let size = le_u16(b, p + 2);
        match ace_data_of(t, b.subrange(p + 4, p + size)) {
            Some(data) => Ok(
                (
                    AceView {
                        ace_type: t,
                        ace_flags: AceFlags { bits: b[p + 1] & AceFlags::ALL },
                        size,
                        data,
                    },
                    p + size,
                ),
            ),
            None => Err(Error::IoError),
        }
    }
}

/// The payload of a basic ACE.
#[derive(Clone, Debug, PartialEq)]
pub struct AceBasic {
    pub access_rights: u32,
    pub sid: Sid,
}

impl View for AceBasic {
    type V = AceBasicView;

    open spec fn view(&self) -> AceBasicView {
        AceBasicView { access_rights: self.access_rights, sid: self.sid@ }
    }
}

impl AceBasic {
    /// Decodes a basic payload at the reader's position and moves past its SID.
    pub fn from_reader(reader: &mut ByteCursor) -> (r: Result<AceBasic, Error>)
        ensures
            final(reader).bytes() == old(reader).bytes(),
            match parse_ace_basic(old(reader).bytes(), old(reader).pos()) {
                Some((v, end)) => r is Ok && r->Ok_0@ == v && final(reader).pos() == end,
                None => r is Err && r->Err_0 == Error::IoError,
            },
    {
        let access_rights = match reader.read_u32_le() {
            Ok(v) => v,
            Err(e) => return Err(e),
        };
        let sid = match Sid::from_reader(reader) {
            Ok(v) => v,
            Err(e) => return Err(e),
        };
        Ok(AceBasic { access_rights, sid })
    }
}

/// The view of an optional GUID.
pub open spec fn opt_guid_view(g: Option<Guid>) -> Option<GuidView> {
    match g {
        Some(g) => Some(g@),
        None => None,
    }
}

/// The payload of an object ACE.
#[derive(Clone, Debug, PartialEq)]
pub struct AceObject {
    pub access_rights: u32,
    pub flags: AceObjectFlags,
    pub object_type: Option<Guid>,
    pub inherited_type: Option<Guid>,
    pub sid: Sid,
}

impl View for AceObject {
    type V = AceObjectView;

    open spec fn view(&self) -> AceObjectView {
        AceObjectView {
            access_rights: self.access_rights,
            flags: self.flags,
            object_type: opt_guid_view(self.object_type),
            inherited_type: opt_guid_view(self.inherited_type),
            sid: self.sid@,
        }
    }
}

impl AceObject {
    /// Decodes an object payload at the reader's position and moves past its SID.
    ///
    /// Each GUID is read only when its flag is set; the two flags are independent.
    pub fn from_reader(reader: &mut ByteCursor) -> (r: Result<AceObject, Error>)
        ensures
            final(reader).bytes() == old(reader).bytes(),
            match parse_ace_object(old(reader).bytes(), old(reader).pos()) {
                Some((v, end)) => r is Ok && r->Ok_0@ == v && final(reader).pos() == end,
                None => r is Err && r->Err_0 == Error::IoError,
            },
    {
        let access_rights = match reader.read_u32_le() {
            Ok(v) => v,
            Err(e) => return Err(e),
        };
        let flags = match reader.read_u32_le() {
            Ok(v) => AceObjectFlags::from_bits_truncate(v),
            Err(e) => return Err(e),
        };
        let object_type = if flags.contains(AceObjectFlags::ACE_OBJECT_TYPE_PRESENT) {
            match Guid::from_reader(reader) {
                Ok(g) => Some(g),
                Err(e) => return Err(e),
            }
        } else {
            None
        };
        let inherited_type = if flags.contains(AceObjectFlags::ACE_INHERITED_OBJECT_TYPE_PRESENT) {
            match Guid::from_reader(reader) {
                Ok(g) => Some(g),
                Err(e) => return Err(e),
            }
        } else {
            None
        };
        let sid = match Sid::from_reader(reader) {
            Ok(v) => v,
            Err(e) => return Err(e),
        };
        Ok(AceObject { access_rights, flags, object_type, inherited_type, sid })
    }
}

/// The payload of an ACE of a type that is kept as raw bytes.
#[derive(Clone, Debug, PartialEq)]
pub struct RawAce(pub Vec<u8>);

/// The payload of an ACE; which variant is decided by the ACE type alone.
#[derive(Clone, Debug, PartialEq)]
pub enum AceData {
    Basic(AceBasic),
    Object(AceObject),
    Unhandled(RawAce),
}

impl View for AceData {
    type V = AceDataView;

    open spec fn view(&self) -> AceDataView {
        match self {
            AceData::Basic(d) => AceDataView::Basic(d@),
            AceData::Object(d) => AceDataView::Object(d@),
            AceData::Unhandled(d) => AceDataView::Unhandled(d.0@),
        }
    }
}

/// An access control entry.
#[derive(Clone, Debug, PartialEq)]
pub struct Ace {
    pub ace_type: AceType,
    pub ace_flags: AceFlags,
    /// The length of the whole entry, its four-byte header included.
    pub size: u16,
    pub data: AceData,
}

impl View for Ace {
    type V = AceView;

    open spec fn view(&self) -> AceView {
        AceView {
            ace_type: self.ace_type,
            ace_flags: self.ace_flags,
            size: self.size,
            data: self.data@,
        }
    }
}

/// How a decode of an ACE from a cursor ends: as `parse_ace` says.
pub open spec fn ace_read(before: &ByteCursor, after: &ByteCursor, r: Result<Ace, Error>) -> bool {
    &&& after.bytes() == before.bytes()
    &&& match parse_ace(before.bytes(), before.pos()) {
        Ok((v, end)) => r is Ok && r->Ok_0@ == v && after.pos() == end,
        Err(e) => r is Err && r->Err_0 == e,
    }
}

impl Ace {
    /// Decodes an ACE from the start of `buffer`.
    pub fn from_buffer(buffer: &[u8]) -> (r: Result<Ace, Error>)
        ensures
            match parse_ace(buffer@, 0) {
                Ok((v, _)) => r is Ok && r->Ok_0@ == v,
                Err(e) => r is Err && r->Err_0 == e,
            },
    {
        let mut reader = ByteCursor::new(buffer);
        Self::from_reader(&mut reader)
    }

    /// Decodes an ACE at the reader's position and moves past it.
    ///
    /// Fails with `UnknownAceType` on a type byte outside the known set, with `InvalidAceSize`
    /// when the declared size is below four, and with `IoError` when the input ends first.
    pub fn from_reader(reader: &mut ByteCursor) -> (r: Result<Ace, Error>)
        ensures
            ace_read(old(reader), final(reader), r),
    {
        let type_byte = match reader.read_u8() {
            Ok(v) => v,
            Err(e) => return Err(e),
        };
        let ace_type = match AceType::from_u8(type_byte) {
            Some(t) => t,
            None => return Err(Error::UnknownAceType { ace_type: type_byte }),
        };
        let ace_flags = match reader.read_u8() {
            Ok(v) => AceFlags::from_bits_truncate(v),
            Err(e) => return Err(e),
        };
        let size = match reader.read_u16_le() {
            Ok(v) => v,
            Err(e) => return Err(e),
        };
        if size < 4 {
            return Err(Error::InvalidAceSize { size });
        }
        let data_buffer = match reader.read_bytes((size - 4) as usize) {
            Ok(v) => v,
            Err(e) => return Err(e),
        };
        let data = if ace_type.is_basic() {
            let mut inner = ByteCursor::from_vec(data_buffer);
            match AceBasic::from_reader(&mut inner) {
                Ok(d) => AceData::Basic(d),
                Err(e) => return Err(e),
            }
        } else if ace_type.is_object() {
            let mut inner = ByteCursor::from_vec(data_buffer);
            match AceObject::from_reader(&mut inner) {
                Ok(d) => AceData::Object(d),
                Err(e) => return Err(e),
            }
        } else {
            AceData::Unhandled(RawAce(data_buffer))
        };
        Ok(Ace { ace_type, ace_flags, size, data })
    }
}

/// Each known type byte and its type stand for one another: the mapping is one table read both
/// ways.
pub proof fn lemma_ace_type_code_round_trip(t: AceType, b: u8)
    ensures
        ace_type_of(ace_type_code(t)) == Some(t),
        ace_type_of(b) == Some(t) ==> ace_type_code(t) == b,
        ace_type_of(b) is Some <==> b <= 0x11,
{
}

/// Every known type has exactly one payload shape: basic, object, or kept raw, and only the
/// compound type is kept raw.
pub proof fn lemma_ace_type_partition(t: AceType)
    ensures
        !(is_basic_type(t) && is_object_type(t)),
        !is_basic_type(t) && !is_object_type(t) <==> t == AceType::AccessAllowedCompound,
{
}

/// A type byte outside the known set fails the decode with that byte, before anything else is
/// read.
pub proof fn lemma_unknown_type_rejected(b: Seq<u8>, p: int)
    requires
        0 <= p < b.len(),
        b[p] > 0x11,
    ensures
        parse_ace(b, p) == Err::<(AceView, int), Error>(Error::UnknownAceType { ace_type: b[p] }),
{
}

/// A declared size below four fails the decode with that size, whatever follows.
pub proof fn lemma_short_size_rejected(b: Seq<u8>, p: int)
    requires
        0 <= p && p + 4 <= b.len(),
        ace_type_of(b[p]) is Some,
        le_u16(b, p + 2) < 4,
    ensures
        parse_ace(b, p) == Err::<(AceView, int), Error>(
            Error::InvalidAceSize { size: le_u16(b, p + 2) },
        ),
{
}

/// In a decoded object payload each GUID is present exactly when its flag is set, independently
/// of the other; the object-type GUID is the sixteen bytes after the flags, and the
/// inherited-object-type GUID follows it when both are present.
pub proof fn lemma_object_guids_follow_flags(b: Seq<u8>, p: int)
    requires
        parse_ace_object(b, p) is Some,
    ensures
        match parse_ace_object(b, p) {
            Some((v, _)) => {
                &&& (v.object_type is Some <==> has_object_type(v.flags.bits))
                &&& (v.inherited_type is Some <==> has_inherited_type(v.flags.bits))
                &&& has_object_type(v.flags.bits) ==> v.object_type == parse_guid(b, p + 8)
                &&& has_inherited_type(v.flags.bits) ==> v.inherited_type == parse_guid(
                    b,
                    if has_object_type(v.flags.bits) {
                        p + 24
                    } else {
                        p + 8
                    },
                )
            },
            None => false,
        },
{
}

} // verus!
