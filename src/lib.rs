//! Definitions and decoding logic for structures that are common across Windows formats.
//!
//! Every decoder reads from a [`ByteCursor`], an in-memory byte buffer with a position.
//! Decoders that follow offsets (such as [`security::SecurityDescriptor::from_stream`])
//! seek within the cursor; all others read forward from the current position. Each decoder's
//! contract states its result as a function of the bytes and the start position.
pub mod cursor;
pub mod err;
pub mod guid;
pub mod ntfs;
pub mod security;
pub mod serialize;
pub mod text;
pub mod timestamp;

pub use cursor::ByteCursor;
pub use err::Error;
