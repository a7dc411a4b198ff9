//! The legacy MS-DOS header that every image starts with.
//!
//! The header is 64 bytes long. All of its numbers are little-endian and sit
//! at fixed offsets, in the order of the fields of [`DosHeader`].

use crate::cursor::{le_u16, le_u32, read_u16, read_u32, ByteCursor, CursorView};
use crate::error::PEError;
use vstd::prelude::*;

verus! {

/// The number of bytes the DOS header occupies.
pub const DOS_HEADER_SIZE: u64 = 64;

/// The signature `MZ`.
pub const DOS_SIGNATURE: [u8; 2] = [0x4d, 0x5a];

/// The signature `ZM`, written by some older compilers that ignored byte order.
pub const DOS_SIGNATURE_REVERSED: [u8; 2] = [0x5a, 0x4d];

/// The DOS header, field for field.
#[derive(Clone, Copy, Debug, PartialEq, Eq)]
pub struct DosHeader {
    /// ID signature (`MZ` or `ZM`)
    pub signature: [u8; 2],
    /// Image size mod 512
    pub lastsize: u16,
    /// Number of 512-byte pages in image
    pub nblocks: u16,
    /// Count of relocation table entries
    pub nreloc: u16,
    /// Size of header, in paragraphs
    pub hdrsize: u16,
    /// Min required mem
    pub minalloc: u16,
    /// Max required mem
    pub maxalloc: u16,
    /// Stack seg offset in load module
    pub ss: u16,
    /// Initial value of sp
    pub sp: u16,
    /// File checksum; zero when no checksum is used
    pub checksum: u16,
    /// Initial value of IP
    pub ip: u16,
    /// cs offset in load module
    pub cs: u16,
    /// Offset of first reloc item
    pub relocpos: u16,
    /// Overlay number
    pub noverlay: u16,
    /// Reserved words
    pub reserved1: [u16; 4],
    /// OEM identifier
    pub oem_id: u16,
    /// OEM information
    pub oem_info: u16,
    /// Reserved words
    pub reserved2: [u16; 10],
    /// Offset of the `PE\0\0` signature from the beginning of the file
    pub e_lfanew: u32,
}

/// Whether `sig` is one of the two signatures a DOS header may start with.
pub open spec fn is_dos_signature(sig: Seq<u8>) -> bool {
    sig == DOS_SIGNATURE@ || sig == DOS_SIGNATURE_REVERSED@
}

/// The 16-bit field at offset `at` of `b`.
pub open spec fn word_at(b: Seq<u8>, at: int) -> u16
    recommends
        0 <= at,
        at + 2 <= b.len(),
{
    le_u16(b.subrange(at, at + 2))
}

impl DosHeader {
    /// The header that the 64 bytes `b` spell.
    pub open spec fn decode(b: Seq<u8>) -> DosHeader
        recommends
            b.len() == DOS_HEADER_SIZE,
    {
        DosHeader {
            signature: [b[0], b[1]],
            lastsize: word_at(b, 2),
            nblocks: word_at(b, 4),
            nreloc: word_at(b, 6),
            hdrsize: word_at(b, 8),
            minalloc: word_at(b, 10),
            maxalloc: word_at(b, 12),
            ss: word_at(b, 14),
            sp: word_at(b, 16),
            checksum: word_at(b, 18),
            ip: word_at(b, 20),
            cs: word_at(b, 22),
            relocpos: word_at(b, 24),
            noverlay: word_at(b, 26),
            reserved1: [word_at(b, 28), word_at(b, 30), word_at(b, 32), word_at(b, 34)],
            oem_id: word_at(b, 36),
            oem_info: word_at(b, 38),
            reserved2: [
                word_at(b, 40),
                word_at(b, 42),
                word_at(b, 44),
                word_at(b, 46),
                word_at(b, 48),
                word_at(b, 50),
                word_at(b, 52),
                word_at(b, 54),
                word_at(b, 56),
                word_at(b, 58),
            ],
            e_lfanew: le_u32(b.subrange(60, 64)),
        }
    }

    /// What parsing at the cursor `v` comes to. The signature is judged as soon
    /// as its two bytes are there, before anything behind it is asked for.
    pub open spec fn parse_outcome(v: CursorView) -> Result<DosHeader, PEError> {
        if !v.has(2) {
            Err(PEError::Truncated)
        } else if !is_dos_signature(v.window(2)) {
            Err(PEError::InvalidSignature)
        } else if !v.has(DOS_HEADER_SIZE as nat) {
            Err(PEError::Truncated)
        } else {
            Ok(DosHeader::decode(v.window(DOS_HEADER_SIZE as nat)))
        }
    }

    /// Reads the DOS header at the cursor and leaves the cursor just behind it.
    /// On failure the cursor is where it was.
    pub fn parse(cur: &mut ByteCursor) -> (res: Result<DosHeader, PEError>)
        ensures
            res == DosHeader::parse_outcome(old(cur)@),
            res is Ok ==> final(cur)@ == old(cur)@.moved(DOS_HEADER_SIZE as int),
            res is Err ==> final(cur)@ == old(cur)@,
    {
        let mut c: ByteCursor = *cur;
        let ghost start = c@;
        let signature: [u8; 2] = c.read_exact::<2>()?;
        let is_mz: bool = signature[0] == DOS_SIGNATURE[0] && signature[1] == DOS_SIGNATURE[1];
        let is_zm: bool = signature[0] == DOS_SIGNATURE_REVERSED[0]
            && signature[1] == DOS_SIGNATURE_REVERSED[1];
        assert(is_mz == (signature@ =~= DOS_SIGNATURE@));
        assert(is_zm == (signature@ =~= DOS_SIGNATURE_REVERSED@));
        if !is_mz && !is_zm {
            return Err(PEError::InvalidSignature);
        }
        let lastsize: u16 = read_u16(&mut c)?;
        let nblocks: u16 = read_u16(&mut c)?;
        let nreloc: u16 = read_u16(&mut c)?;
        let hdrsize: u16 = read_u16(&mut c)?;
        let minalloc: u16 = read_u16(&mut c)?;
        let maxalloc: u16 = read_u16(&mut c)?;
        let ss: u16 = read_u16(&mut c)?;
        let sp: u16 = read_u16(&mut c)?;
        let checksum: u16 = read_u16(&mut c)?;
        let ip: u16 = read_u16(&mut c)?;
        let cs: u16 = read_u16(&mut c)?;
        let relocpos: u16 = read_u16(&mut c)?;
        let noverlay: u16 = read_u16(&mut c)?;
        let reserved1: [u16; 4] = read_words::<4>(&mut c)?;
        let oem_id: u16 = read_u16(&mut c)?;
        let oem_info: u16 = read_u16(&mut c)?;
        let reserved2: [u16; 10] = read_words::<10>(&mut c)?;
        let e_lfanew: u32 = read_u32(&mut c)?;
        *cur = c;
        let header = DosHeader {
            signature,
            lastsize,
            nblocks,
            nreloc,
            hdrsize,
            minalloc,
            maxalloc,
            ss,
            sp,
            checksum,
            ip,
            cs,
            relocpos,
            noverlay,
            reserved1,
            oem_id,
            oem_info,
            reserved2,
            e_lfanew,
        };
        proof {
            let b = start.window(DOS_HEADER_SIZE as nat);
            let want = DosHeader::decode(b);
            assert(header.signature =~= want.signature);
            assert(header.reserved1 =~= want.reserved1);
            assert(header.reserved2 =~= want.reserved2);
            assert(b.subrange(60, 64) =~= start.moved(60).window(4));
        }
        Ok(header)
    }

    /// The size of the file as the legacy fields give it:
    /// `nblocks * 512 + lastsize`.
    pub fn legacy_size(&self) -> (size: u32)
        ensures
            size == self.nblocks * 512 + self.lastsize,
    {
        self.nblocks as u32 * 512 + self.lastsize as u32
    }

    /// Whether the header carries a checksum. A checksum of zero means that
    /// none is used.
    pub fn has_checksum(&self) -> (used: bool)
        ensures
            used == (self.checksum != 0),
    {
        self.checksum != 0
    }
}

/// Reads `N` consecutive little-endian 16-bit fields.
fn read_words<const N: usize>(cur: &mut ByteCursor) -> (res: Result<[u16; N], PEError>)
    ensures
        res is Ok <==> old(cur)@.has(2 * N as nat),
        res matches Ok(words) ==> forall|i: int|
            0 <= i < N ==> #[trigger] words@[i] == word_at(old(cur)@.window(2 * N as nat), 2 * i),
        res is Ok ==> final(cur)@ == old(cur)@.moved(2 * N),
        res matches Err(e) ==> e == PEError::Truncated && final(cur)@ == old(cur)@,
{
    let mut c: ByteCursor = *cur;
    let ghost start = c@;
    let mut words: [u16; N] = [0u16; N];
    let mut i: usize = 0;
    while i < N
        invariant
            i <= N,
            start == old(cur)@,
            *cur == *old(cur),
            c@ == start.moved(2 * i),
            start.has(2 * i as nat),
            forall|j: int| 0 <= j < i ==> #[trigger] words@[j] == le_u16(start.moved(2 * j).window(2)),
        decreases N - i,
    {
        let w: u16 = read_u16(&mut c)?;
        words[i] = w;
        i = i + 1;
    }
    *cur = c;
    proof {
        let b = start.window(2 * N as nat);
        assert forall|k: int| 0 <= k < N implies #[trigger] words@[k] == word_at(b, 2 * k) by {
            assert(b.subrange(2 * k, 2 * k + 2) =~= start.moved(2 * k).window(2));
        }
    }
    Ok(words)
}

} // verus!
