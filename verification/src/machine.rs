//! The target architecture of an image.
//!
//! The format assigns each architecture one 16-bit code. [`Machine::spec_code`]
//! is that table; decoding is defined as its inverse, so a code is accepted
//! exactly when some architecture owns it.

use crate::error::PEError;
use vstd::prelude::*;
use vstd::std_specs::convert::TryFromSpecImpl;

verus! {

/// The CPU type an image is built for.
///
/// An image file can be run only on the specified machine or on a system that
/// emulates the specified machine.
#[derive(Clone, Copy, Debug, PartialEq, Eq, Structural)]
pub enum Machine {
    /// The contents of this field are assumed to be applicable to any machine type
    Unknown,
    /// Matsushita AM33
    Am33,
    /// x64
    Amd64,
    /// ARM little endian
    Arm,
    /// ARM64 little endian
    Arm64,
    /// ARM Thumb-2 little endian
    Armnt,
    /// EFI byte code
    Ebc,
    /// Intel 386 or later processors and compatible processors
    I386,
    /// Intel Itanium processor family
    Ia64,
    /// Mitsubishi M32R little endian
    M32R,
    /// MIPS16
    Mips16,
    /// MIPS with FPU
    MipsFpu,
    /// MIPS16 with FPU
    MipsFpu16,
    /// Power PC little endian
    PowerPc,
    /// Power PC with floating point support
    PowerPcFp,
    /// MIPS little endian
    R4000,
    /// RISC-V 32-bit address space
    RiscV32,
    /// RISC-V 64-bit address space
    RiscV64,
    /// RISC-V 128-bit address space
    RiscV128,
    /// Hitachi SH3
    Sh3,
    /// Hitachi SH3 DSP
    Sh3Dsp,
    /// Hitachi SH4
    Sh4,
    /// Hitachi SH5
    Sh5,
    /// Thumb
    Thumb,
    /// MIPS little-endian WCE v2
    WceMipsV2,
}

impl Machine {
    /// The code the format assigns to this architecture.
    pub open spec fn spec_code(self) -> u16 {
        match self {
            Machine::Unknown => 0x0,
            Machine::Am33 => 0x1d3,
            Machine::Amd64 => 0x8664,
            Machine::Arm => 0x1c0,
            Machine::Arm64 => 0xaa64,
            Machine::Armnt => 0x1c4,
            Machine::Ebc => 0xebc,
            Machine::I386 => 0x14c,
            Machine::Ia64 => 0x200,
            Machine::M32R => 0x9041,
            Machine::Mips16 => 0x266,
            Machine::MipsFpu => 0x366,
            Machine::MipsFpu16 => 0x466,
            Machine::PowerPc => 0x1f0,
            Machine::PowerPcFp => 0x1f1,
            Machine::R4000 => 0x166,
            Machine::RiscV32 => 0x5032,
            Machine::RiscV64 => 0x5064,
            Machine::RiscV128 => 0x5128,
            Machine::Sh3 => 0x1a2,
            Machine::Sh3Dsp => 0x1a3,
            Machine::Sh4 => 0x1a6,
            Machine::Sh5 => 0x1a8,
            Machine::Thumb => 0x1c2,
            Machine::WceMipsV2 => 0x169,
        }
    }

    /// Whether some architecture owns the code `n`.
    pub open spec fn is_known_code(n: u16) -> bool {
        exists|m: Machine| m.spec_code() == n
    }

    /// The architecture that owns the code `n`, or `InvalidMachineType(n)`
    /// when none does.
    pub open spec fn decode(n: u16) -> Result<Machine, PEError> {
        if Machine::is_known_code(n) {
            Ok(choose|m: Machine| m.spec_code() == n)
        } else {
            Err(PEError::InvalidMachineType(n))
        }
    }

    /// The code the format assigns to this architecture.
    #[verifier::when_used_as_spec(spec_code)]
    pub fn code(self) -> (c: u16)
        ensures
            c == self.spec_code(),
    {
        match self {
            Machine::Unknown => 0x0,
            Machine::Am33 => 0x1d3,
            Machine::Amd64 => 0x8664,
            Machine::Arm => 0x1c0,
            Machine::Arm64 => 0xaa64,
            Machine::Armnt => 0x1c4,
            Machine::Ebc => 0xebc,
            Machine::I386 => 0x14c,
            Machine::Ia64 => 0x200,
            Machine::M32R => 0x9041,
            Machine::Mips16 => 0x266,
            Machine::MipsFpu => 0x366,
            Machine::MipsFpu16 => 0x466,
            Machine::PowerPc => 0x1f0,
            Machine::PowerPcFp => 0x1f1,
            Machine::R4000 => 0x166,
            Machine::RiscV32 => 0x5032,
            Machine::RiscV64 => 0x5064,
            Machine::RiscV128 => 0x5128,
            Machine::Sh3 => 0x1a2,
            Machine::Sh3Dsp => 0x1a3,
            Machine::Sh4 => 0x1a6,
            Machine::Sh5 => 0x1a8,
            Machine::Thumb => 0x1c2,
            Machine::WceMipsV2 => 0x169,
        }
    }
}

impl TryFromSpecImpl<u16> for Machine {
    open spec fn obeys_try_from_spec() -> bool {
        true
    }

    open spec fn try_from_spec(n: u16) -> Result<Machine, PEError> {
        Machine::decode(n)
    }
}

impl TryFrom<u16> for Machine {
    type Error = PEError;

    /// Decodes a raw machine code. Only the codes of the table are accepted;
    /// any other comes back inside `InvalidMachineType`.
    fn try_from(n: u16) -> (res: Result<Machine, PEError>)
        ensures
            res == Machine::decode(n),
    {
        let res = match n {
            0x0 => Ok(Machine::Unknown),
            0x1d3 => Ok(Machine::Am33),
            0x8664 => Ok(Machine::Amd64),
            0x1c0 => Ok(Machine::Arm),
            0xaa64 => Ok(Machine::Arm64),
            0x1c4 => Ok(Machine::Armnt),
            0xebc => Ok(Machine::Ebc),
            0x14c => Ok(Machine::I386),
            0x200 => Ok(Machine::Ia64),
            0x9041 => Ok(Machine::M32R),
            0x266 => Ok(Machine::Mips16),
            0x366 => Ok(Machine::MipsFpu),
            0x466 => Ok(Machine::MipsFpu16),
            0x1f0 => Ok(Machine::PowerPc),
            0x1f1 => Ok(Machine::PowerPcFp),
            0x166 => Ok(Machine::R4000),
            0x5032 => Ok(Machine::RiscV32),
            0x5064 => Ok(Machine::RiscV64),
            0x5128 => Ok(Machine::RiscV128),
            0x1a2 => Ok(Machine::Sh3),
            0x1a3 => Ok(Machine::Sh3Dsp),
            0x1a6 => Ok(Machine::Sh4),
            0x1a8 => Ok(Machine::Sh5),
            0x1c2 => Ok(Machine::Thumb),
            0x169 => Ok(Machine::WceMipsV2),
            _ => Err(PEError::InvalidMachineType(n)),
        };
        proof {
            if let Ok(m) = res {
                assert(m.spec_code() == n);
                lemma_code_is_injective(m, choose|k: Machine| k.spec_code() == n);
            }
        }
        res
    }
}

/// No two architectures share a code.
pub proof fn lemma_code_is_injective(a: Machine, b: Machine)
    requires
        a.spec_code() == b.spec_code(),
    ensures
        a == b,
{
}

/// Decoding the code of an architecture gives that architecture back.
pub proof fn lemma_decode_inverts_code(m: Machine)
    ensures
        Machine::is_known_code(m.spec_code()),
        Machine::decode(m.spec_code()) == Ok::<Machine, PEError>(m),
{
    lemma_code_is_injective(m, choose|k: Machine| k.spec_code() == m.spec_code());
}

/// Encoding a decoded architecture gives the code back.
pub proof fn lemma_code_inverts_decode(n: u16)
    requires
        Machine::decode(n) is Ok,
    ensures
        Machine::decode(n)->Ok_0.spec_code() == n,
{
}

/// A code that no architecture owns is rejected, and the error carries it.
pub proof fn lemma_foreign_code_is_rejected(n: u16)
    requires
        forall|m: Machine| m.spec_code() != n,
    ensures
        Machine::decode(n) == Err::<Machine, PEError>(PEError::InvalidMachineType(n)),
{
}

} // verus!
