//! Instruction decoder.
//!
//! An instruction is a one-byte opcode followed by an opcode-specific
//! payload, possibly embedding a state entry.  An opcode outside the
//! recognized set is a fatal format violation: decoding aborts with
//! [`DecodeError::UnknownOpcode`] carrying the offending byte and its
//! position.

use vstd::prelude::*;

use crate::cursor::Cursor;
use crate::cursor::DecodeError;
use crate::cursor::spec_read_blob;
use crate::cursor::spec_read_u32;
use crate::cursor::spec_read_u8;
use crate::substate::SpecSubstate;
use crate::substate::Substate;
use crate::cursor::spec_blob_width;
use crate::substate::lemma_substate_advances;
use crate::substate::lemma_substate_width;
use crate::substate::spec_substate_width;
use crate::substate::spec_read_substate;
use crate::types::Signature;
use crate::types::SpecSubstateId;
use crate::types::SubstateId;
use crate::types::spec_read_signature;
use crate::types::spec_read_substate_id;

verus! {

/// One decoded operation of a transaction: a closed, tagged set of
/// fifteen variants, each self-contained and immutable once constructed.
#[derive(Debug)]
pub enum Instruction {
    /// Declares the format version and flags of the transaction.
    HEADER(u8, u8),
    /// Invokes a system call with an opaque argument blob.
    SYSCALL(Vec<u8>),
    /// Creates a state entry.
    UP(Substate),
    /// Consumes a state entry given by value.
    VDOWN(Substate),
    /// Consumes a state entry given by value, with an argument blob.
    VDOWNARG(Substate, Vec<u8>),
    /// Consumes a state entry by identifier.
    DOWN(SubstateId),
    /// Consumes a state entry created earlier in this transaction, by
    /// local index.
    LDOWN(u32),
    /// Consumes every state entry of one kind, selected by a class byte.
    DOWNALL(u8),
    /// Embeds an opaque message blob.
    MSG(Vec<u8>),
    /// Attaches a recoverable signature.
    SIG(Signature),
    /// Consumes the state entries of an index prefix.
    DOWNINDEX(Vec<u8>),
    /// Reads a state entry created earlier in this transaction, by local
    /// index.
    LREAD(u32),
    /// Reads a state entry given by value.
    VREAD(Substate),
    /// Reads a state entry by identifier.
    READ(SubstateId),
    /// Marks a structural boundary; it does not end the decode.
    END,
}

/// Mathematical model of an [`Instruction`].
pub enum SpecInstruction {
    HEADER(u8, u8),
    SYSCALL(Seq<u8>),
    UP(SpecSubstate),
    VDOWN(SpecSubstate),
    VDOWNARG(SpecSubstate, Seq<u8>),
    DOWN(SpecSubstateId),
    LDOWN(u32),
    DOWNALL(u8),
    MSG(Seq<u8>),
    SIG(Seq<u8>),
    DOWNINDEX(Seq<u8>),
    LREAD(u32),
    VREAD(SpecSubstate),
    READ(SpecSubstateId),
    END,
}

impl View for Instruction {
    type V = SpecInstruction;

    open spec fn view(&self) -> SpecInstruction {
        match self {
            Instruction::HEADER(a, b) => SpecInstruction::HEADER(*a, *b),
            Instruction::SYSCALL(blob) => SpecInstruction::SYSCALL(blob@),
            Instruction::UP(sub) => SpecInstruction::UP(sub@),
            Instruction::VDOWN(sub) => SpecInstruction::VDOWN(sub@),
            Instruction::VDOWNARG(sub, blob) => SpecInstruction::VDOWNARG(sub@, blob@),
            Instruction::DOWN(id) => SpecInstruction::DOWN(id@),
            Instruction::LDOWN(ix) => SpecInstruction::LDOWN(*ix),
            Instruction::DOWNALL(class) => SpecInstruction::DOWNALL(*class),
            Instruction::MSG(blob) => SpecInstruction::MSG(blob@),
            Instruction::SIG(sig) => SpecInstruction::SIG(sig@),
            Instruction::DOWNINDEX(prefix) => SpecInstruction::DOWNINDEX(prefix@),
            Instruction::LREAD(ix) => SpecInstruction::LREAD(*ix),
            Instruction::VREAD(sub) => SpecInstruction::VREAD(sub@),
            Instruction::READ(id) => SpecInstruction::READ(id@),
            Instruction::END => SpecInstruction::END,
        }
    }
}

/// Whether `b` is one of the fifteen recognized opcode bytes.
pub open spec fn is_opcode(b: u8) -> bool {
    b <= 0x0E
}

/// The opcode byte under which an instruction is encoded.
pub open spec fn spec_opcode_of(i: SpecInstruction) -> u8 {
    match i {
        SpecInstruction::END => 0x00,
        SpecInstruction::UP(_) => 0x01,
        SpecInstruction::VDOWN(_) => 0x02,
        SpecInstruction::VDOWNARG(_, _) => 0x03,
        SpecInstruction::DOWN(_) => 0x04,
        SpecInstruction::LDOWN(_) => 0x05,
        SpecInstruction::MSG(_) => 0x06,
        SpecInstruction::SIG(_) => 0x07,
        SpecInstruction::DOWNALL(_) => 0x08,
        SpecInstruction::SYSCALL(_) => 0x09,
        SpecInstruction::HEADER(_, _) => 0x0A,
        SpecInstruction::DOWNINDEX(_) => 0x0B,
        SpecInstruction::LREAD(_) => 0x0C,
        SpecInstruction::VREAD(_) => 0x0D,
        SpecInstruction::READ(_) => 0x0E,
    }
}

/// One instruction starting at `pos`: one opcode byte, then the payload
/// of the variant the opcode selects.
#[verifier::opaque]
pub open spec fn spec_read_instruction(s: Seq<u8>, pos: int) -> Result<(SpecInstruction, int), DecodeError> {
    match spec_read_u8(s, pos) {
        Err(e) => Err(e),
        Ok((op, p)) => if op == 0x00 {
            Ok((SpecInstruction::END, p))
        } else if op == 0x01 {
            match spec_read_substate(s, p) {
                Ok((sub, p1)) => Ok((SpecInstruction::UP(sub), p1)),
                Err(e) => Err(e),
            }
        } else if op == 0x02 {
            match spec_read_substate(s, p) {
                Ok((sub, p1)) => Ok((SpecInstruction::VDOWN(sub), p1)),
                Err(e) => Err(e),
            }
        } else if op == 0x03 {
            match spec_read_substate(s, p) {
                Ok((sub, p1)) => match spec_read_blob(s, p1) {
                    Ok((arg, p2)) => Ok((SpecInstruction::VDOWNARG(sub, arg), p2)),
                    Err(e) => Err(e),
                },
                Err(e) => Err(e),
            }
        } else if op == 0x04 {
            match spec_read_substate_id(s, p) {
                Ok((id, p1)) => Ok((SpecInstruction::DOWN(id), p1)),
                Err(e) => Err(e),
            }
        } else if op == 0x05 {
            match spec_read_u32(s, p) {
                Ok((ix, p1)) => Ok((SpecInstruction::LDOWN(ix), p1)),
                Err(e) => Err(e),
            }
        } else if op == 0x06 {
            match spec_read_blob(s, p) {
                Ok((blob, p1)) => Ok((SpecInstruction::MSG(blob), p1)),
                Err(e) => Err(e),
            }
        } else if op == 0x07 {
            match spec_read_signature(s, p) {
                Ok((sig, p1)) => Ok((SpecInstruction::SIG(sig), p1)),
                Err(e) => Err(e),
            }
        } else if op == 0x08 {
            match spec_read_u8(s, p) {
                Ok((class, p1)) => Ok((SpecInstruction::DOWNALL(class), p1)),
                Err(e) => Err(e),
            }
        } else if op == 0x09 {
            match spec_read_blob(s, p) {
                Ok((blob, p1)) => Ok((SpecInstruction::SYSCALL(blob), p1)),
                Err(e) => Err(e),
            }
        } else if op == 0x0A {
            match spec_read_u8(s, p) {
                Ok((version, p1)) => match spec_read_u8(s, p1) {
                    Ok((flags, p2)) => Ok((SpecInstruction::HEADER(version, flags), p2)),
                    Err(e) => Err(e),
                },
                Err(e) => Err(e),
            }
        } else if op == 0x0B {
            match spec_read_blob(s, p) {
                Ok((prefix, p1)) => Ok((SpecInstruction::DOWNINDEX(prefix), p1)),
                Err(e) => Err(e),
            }
        } else if op == 0x0C {
            match spec_read_u32(s, p) {
                Ok((ix, p1)) => Ok((SpecInstruction::LREAD(ix), p1)),
                Err(e) => Err(e),
            }
        } else if op == 0x0D {
            match spec_read_substate(s, p) {
                Ok((sub, p1)) => Ok((SpecInstruction::VREAD(sub), p1)),
                Err(e) => Err(e),
            }
        } else if op == 0x0E {
            match spec_read_substate_id(s, p) {
                Ok((id, p1)) => Ok((SpecInstruction::READ(id), p1)),
                Err(e) => Err(e),
            }
        } else {
            Err(DecodeError::UnknownOpcode(op, pos as usize))
        },
    }
}

/// Width in bytes of an instruction when encoded: the opcode byte plus
/// its payload.
pub open spec fn spec_instruction_width(i: SpecInstruction) -> int {
    1 + match i {
        SpecInstruction::END => 0,
        SpecInstruction::HEADER(_, _) => 2,
        SpecInstruction::DOWNALL(_) => 1,
        SpecInstruction::LDOWN(_) => 4,
        SpecInstruction::LREAD(_) => 4,
        SpecInstruction::MSG(blob) => spec_blob_width(blob),
        SpecInstruction::SYSCALL(blob) => spec_blob_width(blob),
        SpecInstruction::DOWNINDEX(blob) => spec_blob_width(blob),
        SpecInstruction::SIG(sig) => sig.len() as int,
        SpecInstruction::DOWN(id) => id.hash.len() as int + 4,
        SpecInstruction::READ(id) => id.hash.len() as int + 4,
        SpecInstruction::UP(sub) => spec_substate_width(sub),
        SpecInstruction::VDOWN(sub) => spec_substate_width(sub),
        SpecInstruction::VREAD(sub) => spec_substate_width(sub),
        SpecInstruction::VDOWNARG(sub, arg) => spec_substate_width(sub) + spec_blob_width(arg),
    }
}

/// An encoded instruction occupies exactly its width: a successful read
/// ends `spec_instruction_width` bytes after where it started.
pub proof fn lemma_instruction_width(s: Seq<u8>, pos: int)
    ensures
        (match spec_read_instruction(s, pos) {
            Ok((inst, p2)) => p2 - pos == spec_instruction_width(inst),
            Err(_) => true,
        }),
{
    reveal(spec_read_instruction);
    lemma_substate_width(s, pos + 1);
}

/// Opcode closure, unknown side: an opcode byte outside the recognized
/// set fails with exactly that byte and its position.
pub proof fn lemma_unknown_opcode(s: Seq<u8>, pos: int)
    requires
        0 <= pos < s.len(),
        !is_opcode(s[pos]),
    ensures
        spec_read_instruction(s, pos) == Err::<(SpecInstruction, int), DecodeError>(
            DecodeError::UnknownOpcode(s[pos], pos as usize),
        ),
{
    reveal(spec_read_instruction);
}

/// Opcode closure, known side: a successfully decoded instruction is the
/// variant its opcode byte selects.
pub proof fn lemma_opcode_matches(s: Seq<u8>, pos: int)
    requires
        spec_read_instruction(s, pos) is Ok,
    ensures
        0 <= pos < s.len(),
        is_opcode(s[pos]),
        spec_opcode_of(spec_read_instruction(s, pos)->Ok_0.0) == s[pos],
{
    reveal(spec_read_instruction);
}

/// A successfully read instruction ends strictly after its start and
/// within the buffer.
pub proof fn lemma_instruction_advances(s: Seq<u8>, pos: int)
    ensures
        (match spec_read_instruction(s, pos) {
            Ok((inst, p2)) => pos < p2 <= s.len(),
            Err(_) => true,
        }),
{
    reveal(spec_read_instruction);
    lemma_substate_advances(s, pos + 1);
}

impl Instruction {
    /// Reads one instruction and advances past it.  On an error the
    /// position may rest inside the instruction; decoding aborts there,
    /// so no later read sees it.
    pub fn from_buffer(cursor: &mut Cursor) -> (r: Result<Instruction, DecodeError>)
        requires
            old(cursor).wf(),
        ensures
            final(cursor).wf(),
            final(cursor).bytes@ == old(cursor).bytes@,
            match r {
                Ok(inst) => spec_read_instruction(old(cursor).bytes@, old(cursor).pos as int)
                    == Ok::<(SpecInstruction, int), DecodeError>((inst@, final(cursor).pos as int)),
                Err(e) => spec_read_instruction(old(cursor).bytes@, old(cursor).pos as int)
                    == Err::<(SpecInstruction, int), DecodeError>(e),
            },
    {
        proof {
            reveal(spec_read_instruction);
        }
        let op_pos = cursor.pos;
        let op = match cursor.read_u8() {
            Ok(t) => t,
            Err(e) => {
                return Err(e);
            },
        };
        match op {
            0x00 => Ok(Instruction::END),
            0x01 => {
                match Substate::from_buffer(cursor) {
                    Ok(sub) => Ok(Instruction::UP(sub)),
                    Err(e) => Err(e),
                }
            },
            0x02 => {
                match Substate::from_buffer(cursor) {
                    Ok(sub) => Ok(Instruction::VDOWN(sub)),
                    Err(e) => Err(e),
                }
            },
            0x03 => {
                let sub = match Substate::from_buffer(cursor) {
                    Ok(v) => v,
                    Err(e) => {
                        return Err(e);
                    },
                };
                match cursor.read_blob() {
                    Ok(arg) => Ok(Instruction::VDOWNARG(sub, arg)),
                    Err(e) => Err(e),
                }
            },
            0x04 => {
                match cursor.read_substate_id() {
                    Ok(id) => Ok(Instruction::DOWN(id)),
                    Err(e) => Err(e),
                }
            },
            0x05 => {
                match cursor.read_u32() {
                    Ok(ix) => Ok(Instruction::LDOWN(ix)),
                    Err(e) => Err(e),
                }
            },
            0x06 => {
                match cursor.read_blob() {
                    Ok(blob) => Ok(Instruction::MSG(blob)),
                    Err(e) => Err(e),
                }
            },
            0x07 => {
                match cursor.read_signature() {
                    Ok(sig) => Ok(Instruction::SIG(sig)),
                    Err(e) => Err(e),
                }
            },
            0x08 => {
                match cursor.read_u8() {
                    Ok(class) => Ok(Instruction::DOWNALL(class)),
                    Err(e) => Err(e),
                }
            },
            0x09 => {
                match cursor.read_blob() {
                    Ok(blob) => Ok(Instruction::SYSCALL(blob)),
                    Err(e) => Err(e),
                }
            },
            0x0A => {
                let version = match cursor.read_u8() {
                    Ok(v) => v,
                    Err(e) => {
                        return Err(e);
                    },
                };
                match cursor.read_u8() {
                    Ok(flags) => Ok(Instruction::HEADER(version, flags)),
                    Err(e) => Err(e),
                }
            },
            0x0B => {
                match cursor.read_blob() {
                    Ok(prefix) => Ok(Instruction::DOWNINDEX(prefix)),
                    Err(e) => Err(e),
                }
            },
            0x0C => {
                match cursor.read_u32() {
                    Ok(ix) => Ok(Instruction::LREAD(ix)),
                    Err(e) => Err(e),
                }
            },
            0x0D => {
                match Substate::from_buffer(cursor) {
                    Ok(sub) => Ok(Instruction::VREAD(sub)),
                    Err(e) => Err(e),
                }
            },
            0x0E => {
                match cursor.read_substate_id() {
                    Ok(id) => Ok(Instruction::READ(id)),
                    Err(e) => Err(e),
                }
            },
            _ => Err(DecodeError::UnknownOpcode(op, op_pos)),
        }
    }
}

} // verus!
