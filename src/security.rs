//! Security descriptors and their parts: SIDs, ACLs and ACEs.
//! Layouts: <https://github.com/libyal/libfwnt/wiki/Security-Descriptor>
pub mod ace;
pub mod acl;
pub mod authority;
pub mod flags;
pub mod sec_desc;
pub mod sid;

pub use self::ace::{Ace, AceBasic, AceData, AceObject, AceType, RawAce};
pub use self::acl::{Acl, check_acl};
pub use self::authority::{Authority, SubAuthority, SubAuthorityList};
pub use self::flags::{
    AceFlags,
    AceObjectFlags,
    FolderAccessFlags,
    NonFolderAccessFlags,
    SdControlFlags,
    StandardAccessFlags,
};
pub use self::sec_desc::{SecDescHeader, SecurityDescriptor};
pub use self::sid::Sid;
