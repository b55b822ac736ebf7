//! Byte cursor and primitive field readers.
//!
//! A [`Cursor`] is an immutable byte buffer together with a read position.
//! Each reader advances the position by exactly the width of the field it
//! reads and fails with [`DecodeError::TruncatedInput`] when fewer bytes
//! remain than the field needs; the position never passes the end of the
//! buffer.

use vstd::prelude::*;

verus! {

/// Width in bytes of a recoverable signature field.
pub const SIGNATURE_LEN: usize = 65;

/// Width in bytes of the hash part of a substate identifier.
pub const SUBSTATE_ID_HASH_LEN: usize = 32;

/// Why a decode failed.  Unknown tags carry the offending byte and its
/// position in the buffer; decoding aborts at the first error and no
/// partial result is returned.
#[derive(Debug, Clone, Copy, PartialEq, Eq, Structural)]
pub enum DecodeError {
    /// A field needed more bytes than remain in the buffer.
    TruncatedInput,
    /// An opcode byte outside the recognized instruction set.
    UnknownOpcode(u8, usize),
    /// A state-entry tag byte outside the recognized set.
    UnknownStateEntryTag(u8, usize),
}

/// A read position over an immutable byte buffer.
pub struct Cursor {
    pub bytes: Vec<u8>,
    pub pos: usize,
}

/// The unsigned integer held by four bytes in big-endian order.
pub open spec fn u32_be(b0: u8, b1: u8, b2: u8, b3: u8) -> u32 {
    (b0 as int * 0x1000000 + b1 as int * 0x10000 + b2 as int * 0x100 + b3 as int) as u32
}

/// One byte at `pos`, and the position just after it.
pub open spec fn spec_read_u8(s: Seq<u8>, pos: int) -> Result<(u8, int), DecodeError> {
    if 0 <= pos && pos + 1 <= s.len() {
        Ok((s[pos], pos + 1))
    } else {
        Err(DecodeError::TruncatedInput)
    }
}

/// A big-endian 32-bit integer starting at `pos`, and the position after it.
pub open spec fn spec_read_u32(s: Seq<u8>, pos: int) -> Result<(u32, int), DecodeError> {
    if 0 <= pos && pos + 4 <= s.len() {
        Ok((u32_be(s[pos], s[pos + 1], s[pos + 2], s[pos + 3]), pos + 4))
    } else {
        Err(DecodeError::TruncatedInput)
    }
}

/// Exactly `n` raw bytes starting at `pos`, and the position after them.
pub open spec fn spec_read_exact(s: Seq<u8>, pos: int, n: int) -> Result<(Seq<u8>, int), DecodeError> {
    if 0 <= pos && 0 <= n && pos + n <= s.len() {
        Ok((s.subrange(pos, pos + n), pos + n))
    } else {
        Err(DecodeError::TruncatedInput)
    }
}

/// A variable blob: a 4-byte big-endian length prefix followed by exactly
/// that many raw bytes.
pub open spec fn spec_read_blob(s: Seq<u8>, pos: int) -> Result<(Seq<u8>, int), DecodeError> {
    match spec_read_u32(s, pos) {
        Ok((n, p)) => spec_read_exact(s, p, n as int),
        Err(e) => Err(e),
    }
}

/// Width in bytes of a variable blob when encoded: the length prefix
/// plus the payload it declares.
pub open spec fn spec_blob_width(b: Seq<u8>) -> int {
    4 + b.len() as int
}

/// A length prefix that declares more bytes than remain is truncated
/// input: the read fails rather than returning a short blob.
pub proof fn lemma_blob_overrun(s: Seq<u8>, pos: int)
    requires
        spec_read_u32(s, pos) is Ok,
        s.len() - spec_read_u32(s, pos)->Ok_0.1 < spec_read_u32(s, pos)->Ok_0.0,
    ensures
        spec_read_blob(s, pos) == Err::<(Seq<u8>, int), DecodeError>(DecodeError::TruncatedInput),
{
}

impl Cursor {
    /// The position never passes the end of the buffer.
    pub open spec fn wf(&self) -> bool {
        self.pos <= self.bytes@.len()
    }

    /// A cursor over `bytes`, positioned at the start.
    pub fn new(bytes: Vec<u8>) -> (c: Cursor)
        ensures
            c.wf(),
            c.bytes@ == bytes@,
            c.pos == 0,
    {
        Cursor { bytes, pos: 0 }
    }

    /// Reads one byte and advances past it.
    pub fn read_u8(&mut self) -> (r: Result<u8, DecodeError>)
        requires
            old(self).wf(),
        ensures
            final(self).wf(),
            final(self).bytes@ == old(self).bytes@,
            match r {
                Ok(v) => spec_read_u8(old(self).bytes@, old(self).pos as int)
                    == Ok::<(u8, int), DecodeError>((v, final(self).pos as int)),
                Err(e) => spec_read_u8(old(self).bytes@, old(self).pos as int)
                    == Err::<(u8, int), DecodeError>(e) && final(self).pos == old(self).pos,
            },
    {
        if self.pos < self.bytes.len() {
            let b = self.bytes[self.pos];
            self.pos = self.pos + 1;
            Ok(b)
        } else {
            Err(DecodeError::TruncatedInput)
        }
    }

    /// Reads a big-endian 32-bit unsigned integer and advances past it.
    pub fn read_u32(&mut self) -> (r: Result<u32, DecodeError>)
        requires
            old(self).wf(),
        ensures
            final(self).wf(),
            final(self).bytes@ == old(self).bytes@,
            match r {
                Ok(v) => spec_read_u32(old(self).bytes@, old(self).pos as int)
                    == Ok::<(u32, int), DecodeError>((v, final(self).pos as int)),
                Err(e) => spec_read_u32(old(self).bytes@, old(self).pos as int)
                    == Err::<(u32, int), DecodeError>(e) && final(self).pos == old(self).pos,
            },
    {
        if self.bytes.len() - self.pos >= 4 {
            let b0 = self.bytes[self.pos];
            let b1 = self.bytes[self.pos + 1];
            let b2 = self.bytes[self.pos + 2];
            let b3 = self.bytes[self.pos + 3];
            let v = (b0 as u32) * 0x1000000 + (b1 as u32) * 0x10000 + (b2 as u32) * 0x100
                + (b3 as u32);
            self.pos = self.pos + 4;
            Ok(v)
        } else {
            Err(DecodeError::TruncatedInput)
        }
    }

    /// Reads exactly `n` raw bytes and advances past them.
    pub fn read_exact(&mut self, n: usize) -> (r: Result<Vec<u8>, DecodeError>)
        requires
            old(self).wf(),
        ensures
            final(self).wf(),
            final(self).bytes@ == old(self).bytes@,
            match r {
                Ok(v) => spec_read_exact(old(self).bytes@, old(self).pos as int, n as int)
                    == Ok::<(Seq<u8>, int), DecodeError>((v@, final(self).pos as int)),
                Err(e) => spec_read_exact(old(self).bytes@, old(self).pos as int, n as int)
                    == Err::<(Seq<u8>, int), DecodeError>(e) && final(self).pos == old(self).pos,
            },
    {
        if n <= self.bytes.len() - self.pos {
            let mut v: Vec<u8> = Vec::new();
            let mut i: usize = 0;
            while i < n
                invariant
                    i <= n,
                    self.wf(),
                    self.bytes@ == old(self).bytes@,
                    self.pos == old(self).pos,
                    self.pos + n <= self.bytes@.len(),
                    self.bytes@.len() <= usize::MAX,
                    v@ == self.bytes@.subrange(self.pos as int, self.pos + i as int),
                decreases n - i,
            {
                let b = self.bytes[self.pos + i];
                v.push(b);
                proof {
                    assert(self.bytes@.subrange(self.pos as int, self.pos + (i + 1) as int)
                        =~= self.bytes@.subrange(self.pos as int, self.pos + i as int).push(b));
                }
                i = i + 1;
            }
            self.pos = self.pos + n;
            Ok(v)
        } else {
            Err(DecodeError::TruncatedInput)
        }
    }

    /// Reads a length-prefixed variable blob and advances past it.  On an
    /// error the position may rest after the length prefix; decoding
    /// aborts there, so no later read sees it.
    pub fn read_blob(&mut self) -> (r: Result<Vec<u8>, DecodeError>)
        requires
            old(self).wf(),
        ensures
            final(self).wf(),
            final(self).bytes@ == old(self).bytes@,
            match r {
                Ok(v) => spec_read_blob(old(self).bytes@, old(self).pos as int)
                    == Ok::<(Seq<u8>, int), DecodeError>((v@, final(self).pos as int)),
                Err(e) => spec_read_blob(old(self).bytes@, old(self).pos as int)
                    == Err::<(Seq<u8>, int), DecodeError>(e),
            },
    {
        let n = match self.read_u32() {
            Ok(n) => n,
            Err(e) => {
                return Err(e);
            },
        };
        match self.read_exact(n as usize) {
            Ok(v) => Ok(v),
            Err(e) => Err(e),
        }
    }
}

} // verus!
