//! Locating and validating the headers of a Portable Executable image.
//!
//! An image starts with a legacy DOS header, which points to the signature
//! `PE\0\0`; the headers that describe the image follow that signature. This
//! library reads the DOS header, follows it to the signature, verifies the
//! signature, and decodes the two fields that say how the rest of the file is
//! to be read: the target machine and the characteristics of the image.
//!
//! Everything works on bytes in memory, through a [`cursor::ByteCursor`].
//! Malformed input is reported as a [`error::PEError`] and never repaired.

pub mod characteristics;
pub mod cursor;
pub mod dos;
pub mod error;
pub mod locator;
pub mod machine;
pub mod parser;
