//! Fixed-width composite field types: recoverable signatures and substate
//! identifiers, with their readers.

use vstd::prelude::*;

use crate::cursor::Cursor;
use crate::cursor::DecodeError;
use crate::cursor::SIGNATURE_LEN;
use crate::cursor::SUBSTATE_ID_HASH_LEN;
use crate::cursor::spec_read_exact;
use crate::cursor::spec_read_u32;

verus! {

/// A recoverable signature: a fixed-width byte array.
#[derive(Debug)]
pub struct Signature {
    pub bytes: Vec<u8>,
}

impl View for Signature {
    type V = Seq<u8>;

    open spec fn view(&self) -> Seq<u8> {
        self.bytes@
    }
}

/// A fixed-width composite identifier referencing a previously created
/// state entry: the hash of the transaction that created it, and the
/// index of the entry within that transaction.
#[derive(Debug)]
pub struct SubstateId {
    pub hash: Vec<u8>,
    pub index: u32,
}

/// Mathematical model of a [`SubstateId`].
pub struct SpecSubstateId {
    pub hash: Seq<u8>,
    pub index: u32,
}

impl View for SubstateId {
    type V = SpecSubstateId;

    open spec fn view(&self) -> SpecSubstateId {
        SpecSubstateId { hash: self.hash@, index: self.index }
    }
}

/// A fixed-width signature field starting at `pos`.
pub open spec fn spec_read_signature(s: Seq<u8>, pos: int) -> Result<(Seq<u8>, int), DecodeError> {
    spec_read_exact(s, pos, SIGNATURE_LEN as int)
}

/// A substate identifier starting at `pos`: a fixed-width hash followed
/// by a big-endian 32-bit index.
pub open spec fn spec_read_substate_id(s: Seq<u8>, pos: int) -> Result<(SpecSubstateId, int), DecodeError> {
    match spec_read_exact(s, pos, SUBSTATE_ID_HASH_LEN as int) {
        Ok((h, p)) => match spec_read_u32(s, p) {
            Ok((ix, p2)) => Ok((SpecSubstateId { hash: h, index: ix }, p2)),
            Err(e) => Err(e),
        },
        Err(e) => Err(e),
    }
}

impl Cursor {
    /// Reads a fixed-width signature field and advances past it.
    pub fn read_signature(&mut self) -> (r: Result<Signature, DecodeError>)
        requires
            old(self).wf(),
        ensures
            final(self).wf(),
            final(self).bytes@ == old(self).bytes@,
            match r {
                Ok(sig) => spec_read_signature(old(self).bytes@, old(self).pos as int)
                    == Ok::<(Seq<u8>, int), DecodeError>((sig@, final(self).pos as int)),
                Err(e) => spec_read_signature(old(self).bytes@, old(self).pos as int)
                    == Err::<(Seq<u8>, int), DecodeError>(e),
            },
    {
        match self.read_exact(SIGNATURE_LEN) {
            Ok(bytes) => Ok(Signature { bytes }),
            Err(e) => Err(e),
        }
    }

    /// Reads a substate identifier and advances past it.  On an error the
    /// position may rest after the hash part; decoding aborts there, so
    /// no later read sees it.
    pub fn read_substate_id(&mut self) -> (r: Result<SubstateId, DecodeError>)
        requires
            old(self).wf(),
        ensures
            final(self).wf(),
            final(self).bytes@ == old(self).bytes@,
            match r {
                Ok(id) => spec_read_substate_id(old(self).bytes@, old(self).pos as int)
                    == Ok::<(SpecSubstateId, int), DecodeError>((id@, final(self).pos as int)),
                Err(e) => spec_read_substate_id(old(self).bytes@, old(self).pos as int)
                    == Err::<(SpecSubstateId, int), DecodeError>(e),
            },
    {
        let hash = match self.read_exact(SUBSTATE_ID_HASH_LEN) {
            Ok(h) => h,
            Err(e) => {
                return Err(e);
            },
        };
        match self.read_u32() {
            Ok(index) => Ok(SubstateId { hash, index }),
            Err(e) => Err(e),
        }
    }
}

} // verus!
