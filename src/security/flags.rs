//! Bit-flag sets of security descriptors, ACEs and access masks.
//!
//! Each set keeps only its known bits: decoding drops the others silently.
use vstd::prelude::*;

verus! {

/// The inheritance flags of an ACE header.
#[derive(Clone, Copy, Debug, PartialEq, Eq, Structural)]
pub struct AceFlags {
    pub bits: u8,
}

impl AceFlags {
    pub const OBJECT_INHERIT_ACE: u8 = 0x01;
    pub const CONTAINER_INHERIT_ACE: u8 = 0x02;
    pub const NO_PROPAGATE_INHERIT_ACE: u8 = 0x04;
    pub const INHERIT_ONLY_ACE: u8 = 0x08;
    /// Every known flag.
    pub const ALL: u8 = 0x0F;

    /// The known flags among `bits`.
    pub fn from_bits_truncate(bits: u8) -> (r: AceFlags)
        ensures
            r.bits == bits & Self::ALL,
    {
        AceFlags { bits: bits & Self::ALL }
    }

    /// Whether every bit of `flags` is set.
    pub fn contains(&self, flags: u8) -> (r: bool)
        ensures
            r == (self.bits & flags == flags),
    {
        self.bits & flags == flags
    }
}

/// The flags of an object ACE that tell which optional GUIDs follow.
#[derive(Clone, Copy, Debug, PartialEq, Eq, Structural)]
pub struct AceObjectFlags {
    pub bits: u32,
}

impl AceObjectFlags {
    /// The object-type GUID is present.
    pub const ACE_OBJECT_TYPE_PRESENT: u32 = 0x0000_0001;
    /// The inherited-object-type GUID is present.
    pub const ACE_INHERITED_OBJECT_TYPE_PRESENT: u32 = 0x0000_0002;
    /// Every known flag.
    pub const ALL: u32 = 0x0000_0003;

    /// The known flags among `bits`.
    pub fn from_bits_truncate(bits: u32) -> (r: AceObjectFlags)
        ensures
            r.bits == bits & Self::ALL,
    {
        AceObjectFlags { bits: bits & Self::ALL }
    }

    /// Whether every bit of `flags` is set.
    pub fn contains(&self, flags: u32) -> (r: bool)
        ensures
            r == (self.bits & flags == flags),
    {
        self.bits & flags == flags
    }
}

/// The control flags of a security descriptor header.
#[derive(Clone, Copy, Debug, PartialEq, Eq, Structural)]
pub struct SdControlFlags {
    pub bits: u16,
}

impl SdControlFlags {
    pub const SE_OWNER_DEFAULTED: u16 = 0x0001;
    pub const SE_GROUP_DEFAULTED: u16 = 0x0002;
    pub const SE_DACL_PRESENT: u16 = 0x0004;
    pub const SE_DACL_DEFAULTED: u16 = 0x0008;
    pub const SE_SACL_PRESENT: u16 = 0x0010;
    pub const SE_SACL_DEFAULTED: u16 = 0x0020;
    pub const SE_DACL_AUTO_INHERIT_REQ: u16 = 0x0100;
    pub const SE_SACL_AUTO_INHERIT_REQ: u16 = 0x0200;
    pub const SE_DACL_AUTO_INHERITED: u16 = 0x0400;
    pub const SE_SACL_AUTO_INHERITED: u16 = 0x0800;
    pub const SE_SACL_PROTECTED: u16 = 0x2000;
    pub const SE_RM_CONTROL_VALID: u16 = 0x4000;
    pub const SE_SELF_RELATIVE: u16 = 0x8000;
    /// Every known flag.
    pub const ALL: u16 = 0xEF3F;

    /// The known flags among `bits`.
    pub fn from_bits_truncate(bits: u16) -> (r: SdControlFlags)
        ensures
            r.bits == bits & Self::ALL,
    {
        SdControlFlags { bits: bits & Self::ALL }
    }

    /// Whether every bit of `flags` is set.
    pub fn contains(&self, flags: u16) -> (r: bool)
        ensures
            r == (self.bits & flags == flags),
    {
        self.bits & flags == flags
    }
}

/// The standard rights of an access mask.
#[derive(Clone, Copy, Debug, PartialEq, Eq, Structural)]
pub struct StandardAccessFlags {
    pub bits: u32,
}

impl StandardAccessFlags {
    pub const SA_RIGHT_DELETE: u32 = 0x0001_0000;
    pub const SA_RIGHT_READCONTROL: u32 = 0x0002_0000;
    pub const SA_RIGHT_WRITESD: u32 = 0x0004_0000;
    pub const SA_RIGHT_WRITEOWNER: u32 = 0x0008_0000;
    pub const SA_RIGHT_SYNCHRONIZE: u32 = 0x0010_0000;
    /// Every known flag.
    pub const ALL: u32 = 0x001F_0000;

    /// The known flags among `bits`.
    pub fn from_bits_truncate(bits: u32) -> (r: StandardAccessFlags)
        ensures
            r.bits == bits & Self::ALL,
    {
        StandardAccessFlags { bits: bits & Self::ALL }
    }

    /// Whether every bit of `flags` is set.
    pub fn contains(&self, flags: u32) -> (r: bool)
        ensures
            r == (self.bits & flags == flags),
    {
        self.bits & flags == flags
    }
}

/// The rights of an access mask on an item that is not a folder.
#[derive(Clone, Copy, Debug, PartialEq, Eq, Structural)]
pub struct NonFolderAccessFlags {
    pub bits: u32,
}

impl NonFolderAccessFlags {
    /// FILE_READ_DATA
    pub const NFA_RIGHT_READBODY: u32 = 0x0000_0001;
    /// FILE_WRITE_DATA
    pub const NFA_RIGHT_WRITEBODY: u32 = 0x0000_0002;
    pub const NFA_RIGHT_APPENDMSG: u32 = 0x0000_0004;
    /// FILE_READ_EA
    pub const NFA_RIGHT_READPROPERTY: u32 = 0x0000_0008;
    /// FILE_WRITE_EA
    pub const NFA_RIGHT_WRITEPROPERTY: u32 = 0x0000_0010;
    /// FILE_EXECUTE
    pub const NFA_RIGHT_EXECUTE: u32 = 0x0000_0020;
    /// FILE_READ_ATTRIBUTES
    pub const NFA_RIGHT_READATTRIBUTES: u32 = 0x0000_0080;
    /// FILE_WRITE_ATTRIBUTES
    pub const NFA_RIGHT_WRITEATTRIBUTES: u32 = 0x0000_0100;
    pub const NFA_RIGHT_WRITEOWNPROPERTY: u32 = 0x0000_0200;
    pub const NFA_RIGHT_DELETEOWNITEM: u32 = 0x0000_0400;
    pub const NFA_RIGHT_VIEWITEM: u32 = 0x0000_0800;
    /// Every known flag.
    pub const ALL: u32 = 0x0000_0FBF;

    /// The known flags among `bits`.
    pub fn from_bits_truncate(bits: u32) -> (r: NonFolderAccessFlags)
        ensures
            r.bits == bits & Self::ALL,
    {
        NonFolderAccessFlags { bits: bits & Self::ALL }
    }

    /// Whether every bit of `flags` is set.
    pub fn contains(&self, flags: u32) -> (r: bool)
        ensures
            r == (self.bits & flags == flags),
    {
        self.bits & flags == flags
    }
}

/// The rights of an access mask on a folder.
#[derive(Clone, Copy, Debug, PartialEq, Eq, Structural)]
pub struct FolderAccessFlags {
    pub bits: u32,
}

impl FolderAccessFlags {
    /// FILE_LIST_DIRECTORY
    pub const FA_RIGHT_LISTCONTENTS: u32 = 0x0000_0001;
    /// FILE_ADD_FILE
    pub const FA_RIGHT_CREATEITEM: u32 = 0x0000_0002;
    /// FILE_ADD_SUBDIRECTORY
    pub const FA_RIGHT_CREATECONTAINER: u32 = 0x0000_0004;
    /// FILE_READ_EA
    pub const FA_RIGHT_READPROPERTY: u32 = 0x0000_0008;
    /// FILE_WRITE_EA
    pub const FA_RIGHT_WRITEPROPERTY: u32 = 0x0000_0010;
    /// FILE_READ_ATTRIBUTES
    pub const FA_RIGHT_READATTRIBUTES: u32 = 0x0000_0080;
    /// FILE_WRITE_ATTRIBUTES
    pub const FA_RIGHT_WRITEATTRIBUTES: u32 = 0x0000_0100;
    pub const FA_RIGHT_WRITEOWNPROPERTY: u32 = 0x0000_0200;
    pub const FA_RIGHT_DELETEOWNITEM: u32 = 0x0000_0400;
    pub const FA_RIGHT_VIEWITEM: u32 = 0x0000_0800;
    pub const FA_RIGHT_OWNER: u32 = 0x0000_4000;
    pub const FA_RIGHT_CONTACT: u32 = 0x0000_8000;
    /// Every known flag.
    pub const ALL: u32 = 0x0000_CF9F;

    /// The known flags among `bits`.
    pub fn from_bits_truncate(bits: u32) -> (r: FolderAccessFlags)
        ensures
            r.bits == bits & Self::ALL,
    {
        FolderAccessFlags { bits: bits & Self::ALL }
    }

    /// Whether every bit of `flags` is set.
    pub fn contains(&self, flags: u32) -> (r: bool)
        ensures
            r == (self.bits & flags == flags),
    {
        self.bits & flags == flags
    }
}

} // verus!
