//! The ways in which decoding an image can fail.

use vstd::prelude::*;

verus! {

/// `std::io::Error`, carried through the library without being looked into.
#[verifier::external_type_specification]
#[verifier::external_body]
pub struct ExIoError(std::io::Error);

/// Why an image could not be decoded.
#[derive(Debug)]
pub enum PEError {
    /// Fewer bytes were left in the source than a read asked for.
    Truncated,
    /// A seek would have put the cursor before the start of the source, or
    /// further on than a position can tell.
    SeekOutOfRange,
    /// The first two bytes are neither `MZ` nor `ZM`.
    InvalidSignature,
    /// `e_lfanew` points back into what has been read already: into the DOS
    /// header itself.
    InvalidHeaderOffset,
    /// The four bytes at `e_lfanew` are not `PE\0\0`.
    InvalidPeSignature,
    /// The machine code is not one the format defines.
    InvalidMachineType(u16),
    /// The operating system failed to open or read the source.
    IoError(std::io::Error),
}

impl From<std::io::Error> for PEError {
    /// Wraps the failure as it is.
    fn from(err: std::io::Error) -> (res: Self)
        ensures
            res == PEError::IoError(err),
    {
        PEError::IoError(err)
    }
}

impl vstd::std_specs::convert::FromSpecImpl<std::io::Error> for PEError {
    open spec fn obeys_from_spec() -> bool {
        true
    }

    open spec fn from_spec(err: std::io::Error) -> Self {
        PEError::IoError(err)
    }
}

} // verus!
