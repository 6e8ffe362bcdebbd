//! NTFS structures.
pub mod mft_reference;

pub use self::mft_reference::MftReference;
