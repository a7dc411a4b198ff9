//! A cursor over the bytes of an image.
//!
//! The cursor reads forward through a byte slice and can be moved relative to
//! where it stands. A read either delivers every byte asked for or fails with
//! [`PEError::Truncated`]; a failed operation leaves the cursor where it was.
//! Moving past the end of the source is allowed: the next read reports it.

use crate::error::PEError;
use vstd::prelude::*;

verus! {

/// What a cursor stands for: the bytes it reads from and the offset of the
/// next byte to read. The offset may lie beyond the end of the source.
pub struct CursorView {
    pub source: Seq<u8>,
    pub position: nat,
}

impl CursorView {
    /// The cursor at the start of `source`.
    pub open spec fn start(source: Seq<u8>) -> CursorView {
        CursorView { source, position: 0 }
    }

    /// How many bytes lie ahead of the cursor.
    pub open spec fn remaining(self) -> nat {
        if self.position <= self.source.len() {
            (self.source.len() - self.position) as nat
        } else {
            0
        }
    }

    /// Whether at least `n` bytes lie ahead of the cursor.
    pub open spec fn has(self, n: nat) -> bool {
        n <= self.remaining()
    }

    /// The next `n` bytes ahead of the cursor.
    pub open spec fn window(self, n: nat) -> Seq<u8>
        recommends
            self.has(n),
    {
        Seq::new(n, |i: int| self.source[self.position + i])
    }

    /// The same source with the cursor `delta` bytes further on (back, if
    /// `delta` is negative).
    pub open spec fn moved(self, delta: int) -> CursorView
        recommends
            0 <= self.position + delta,
    {
        CursorView { source: self.source, position: (self.position + delta) as nat }
    }
}

/// The number that two bytes spell in little-endian order.
pub open spec fn le_u16(b: Seq<u8>) -> u16
    recommends
        b.len() == 2,
{
    (b[0] + 0x100 * b[1]) as u16
}

/// The number that four bytes spell in little-endian order.
pub open spec fn le_u32(b: Seq<u8>) -> u32
    recommends
        b.len() == 4,
{
    (b[0] + 0x100 * b[1] + 0x1_0000 * b[2] + 0x100_0000 * b[3]) as u32
}

/// A position in a borrowed byte source.
#[derive(Clone, Copy, Debug)]
pub struct ByteCursor<'a> {
    bytes: &'a [u8],
    pos: u64,
}

impl<'a> View for ByteCursor<'a> {
    type V = CursorView;

    closed spec fn view(&self) -> CursorView {
        CursorView { source: self.bytes@, position: self.pos as nat }
    }
}

impl<'a> ByteCursor<'a> {
    /// A cursor at the start of `bytes`.
    pub fn new(bytes: &'a [u8]) -> (cur: Self)
        ensures
            cur@ == CursorView::start(bytes@),
    {
        ByteCursor { bytes, pos: 0 }
    }

    /// The offset, from the start of the source, of the next byte to read.
    pub fn position(&self) -> (p: u64)
        ensures
            p == self@.position,
    {
        self.pos
    }

    /// How many bytes lie ahead of the cursor: none, if it stands beyond the
    /// end of the source.
    pub fn remaining(&self) -> (n: usize)
        ensures
            n == self@.remaining(),
    {
        let len: usize = self.bytes.len();
        if self.pos <= len as u64 {
            len - self.pos as usize
        } else {
            0
        }
    }

    /// Reads exactly `N` bytes. With fewer than `N` bytes ahead nothing is
    /// consumed and the read fails with `Truncated`.
    pub fn read_exact<const N: usize>(&mut self) -> (res: Result<[u8; N], PEError>)
        ensures
            res is Ok <==> old(self)@.has(N as nat),
            res matches Ok(buf) ==> buf@ == old(self)@.window(N as nat),
            res is Ok ==> final(self)@ == old(self)@.moved(N as int),
            res matches Err(e) ==> e == PEError::Truncated && final(self)@ == old(self)@,
    {
        if self.remaining() < N {
            return Err(PEError::Truncated);
        }
        let mut buf: [u8; N] = [0u8; N];
        if N > 0 {
            let len: usize = self.bytes.len();
            let start: usize = self.pos as usize;
            let mut i: usize = 0;
            while i < N
                invariant
                    i <= N,
                    len == self.bytes@.len(),
                    start + N <= len,
                    forall|j: int| 0 <= j < i ==> buf@[j] == self.bytes@[start + j],
                decreases N - i,
            {
                buf[i] = self.bytes[start + i];
                i = i + 1;
            }
            self.pos = self.pos + N as u64;
        }
        assert(buf@ =~= old(self)@.window(N as nat));
        Ok(buf)
    }

    /// Moves the cursor by `delta` bytes, forward or backward. The move fails
    /// with `SeekOutOfRange`, and the cursor stays, when the target lies before
    /// the start of the source or is too large for a position to hold. A target
    /// beyond the end of the source is accepted.
    pub fn seek_relative(&mut self, delta: i64) -> (res: Result<(), PEError>)
        ensures
            res is Ok <==> 0 <= old(self)@.position + delta <= u64::MAX,
            res is Ok ==> final(self)@ == old(self)@.moved(delta as int),
            res matches Err(e) ==> e == PEError::SeekOutOfRange && final(self)@ == old(self)@,
    {
        if delta >= 0 {
            let forward: u64 = delta as u64;
            if forward > u64::MAX - self.pos {
                return Err(PEError::SeekOutOfRange);
            }
            self.pos = self.pos + forward;
        } else {
            let back: u64 = (-(delta + 1)) as u64 + 1;
            if back > self.pos {
                return Err(PEError::SeekOutOfRange);
            }
            self.pos = self.pos - back;
        }
        Ok(())
    }
}

/// Reads one byte.
pub fn read_u8(cur: &mut ByteCursor) -> (res: Result<u8, PEError>)
    ensures
        res is Ok <==> old(cur)@.has(1),
        res matches Ok(v) ==> v == old(cur)@.window(1)[0],
        res is Ok ==> final(cur)@ == old(cur)@.moved(1),
        res matches Err(e) ==> e == PEError::Truncated && final(cur)@ == old(cur)@,
{
    let buffer: [u8; 1] = cur.read_exact::<1>()?;
    Ok(buffer[0])
}

/// Reads 2 bytes as a little-endian `u16`.
pub fn read_u16(cur: &mut ByteCursor) -> (res: Result<u16, PEError>)
    ensures
        res is Ok <==> old(cur)@.has(2),
        res matches Ok(v) ==> v == le_u16(old(cur)@.window(2)),
        res is Ok ==> final(cur)@ == old(cur)@.moved(2),
        res matches Err(e) ==> e == PEError::Truncated && final(cur)@ == old(cur)@,
{
    let buffer: [u8; 2] = cur.read_exact::<2>()?;
    Ok(buffer[0] as u16 + 0x100 * (buffer[1] as u16))
}

/// Reads 4 bytes as a little-endian `u32`.
pub fn read_u32(cur: &mut ByteCursor) -> (res: Result<u32, PEError>)
    ensures
        res is Ok <==> old(cur)@.has(4),
        res matches Ok(v) ==> v == le_u32(old(cur)@.window(4)),
        res is Ok ==> final(cur)@ == old(cur)@.moved(4),
        res matches Err(e) ==> e == PEError::Truncated && final(cur)@ == old(cur)@,
{
    let buffer: [u8; 4] = cur.read_exact::<4>()?;
    Ok(
        buffer[0] as u32 + 0x100 * (buffer[1] as u32) + 0x1_0000 * (buffer[2] as u32) + 0x100_0000
            * (buffer[3] as u32),
    )
}

} // verus!
