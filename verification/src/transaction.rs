//! Transaction decoder: the driving loop over a whole byte buffer.
//!
//! A transaction is a back-to-back sequence of instructions with no
//! padding and no count prefix; framing is implicit, the caller supplies
//! exactly one transaction's bytes.  Decoding repeats until the cursor
//! reaches the end of the buffer, so an `END` instruction is appended
//! like any other and does not stop the loop.  The caller receives either
//! the complete instruction sequence or a single error; never a partial
//! result.

use vstd::prelude::*;

use crate::cursor::Cursor;
use crate::cursor::DecodeError;
use crate::instruction::Instruction;
use crate::instruction::SpecInstruction;
use crate::instruction::lemma_instruction_advances;
use crate::instruction::lemma_instruction_width;
use crate::instruction::spec_instruction_width;
use crate::instruction::spec_read_instruction;

verus! {

/// An ordered sequence of decoded instructions: one whole transaction.
#[derive(Debug)]
pub struct Transaction {
    pub instructions: Vec<Instruction>,
}

/// The models of a sequence of instructions, in order.
pub open spec fn spec_views(l: Seq<Instruction>) -> Seq<SpecInstruction> {
    l.map_values(|i: Instruction| i@)
}

impl View for Transaction {
    type V = Seq<SpecInstruction>;

    open spec fn view(&self) -> Seq<SpecInstruction> {
        spec_views(self.instructions@)
    }
}

/// The instruction sequence encoded by `s` from `pos` to the end of the
/// buffer, or the first error met: whole instructions, back to back,
/// until the buffer is exhausted.
pub open spec fn spec_decode_from(s: Seq<u8>, pos: int) -> Result<Seq<SpecInstruction>, DecodeError>
    decreases s.len() - pos
    via spec_decode_from_decreases
{
    if pos >= s.len() {
        Ok(Seq::empty())
    } else {
        match spec_read_instruction(s, pos) {
            Err(e) => Err(e),
            Ok((inst, p2)) => match spec_decode_from(s, p2) {
                Err(e) => Err(e),
                Ok(rest) => Ok(seq![inst] + rest),
            },
        }
    }
}

#[via_fn]
proof fn spec_decode_from_decreases(s: Seq<u8>, pos: int) {
    lemma_instruction_advances(s, pos);
}

/// Width in bytes of an instruction sequence when encoded: the sum of
/// the widths of its instructions.
pub open spec fn spec_transaction_width(l: Seq<SpecInstruction>) -> int
    decreases l.len(),
{
    if l.len() == 0 {
        0
    } else {
        spec_instruction_width(l[0]) + spec_transaction_width(l.drop_first())
    }
}

proof fn lemma_decode_width(s: Seq<u8>, pos: int)
    requires
        0 <= pos <= s.len(),
        spec_decode_from(s, pos) is Ok,
    ensures
        spec_transaction_width(spec_decode_from(s, pos)->Ok_0) == s.len() - pos,
    decreases s.len() - pos,
{
    if pos >= s.len() {
    } else {
        reveal_with_fuel(spec_decode_from, 2);
        lemma_instruction_advances(s, pos);
        lemma_instruction_width(s, pos);
        let (inst, p2) = spec_read_instruction(s, pos)->Ok_0;
        lemma_decode_width(s, p2);
        let rest = spec_decode_from(s, p2)->Ok_0;
        assert((seq![inst] + rest).drop_first() =~= rest);
        assert((seq![inst] + rest)[0] == inst);
    }
}

/// Total consumption: decoding a valid buffer consumes it exactly to its
/// end, so the widths of the decoded instructions sum to the buffer
/// length; no byte is skipped, repeated or left over.
pub proof fn lemma_decode_total_consumption(s: Seq<u8>)
    requires
        spec_decode_from(s, 0) is Ok,
    ensures
        spec_transaction_width(spec_decode_from(s, 0)->Ok_0) == s.len(),
{
    lemma_decode_width(s, 0);
}

impl Transaction {
    /// Decodes one whole transaction from `bytes`.  Returns the complete
    /// instruction sequence exactly when the buffer is a back-to-back
    /// encoding of whole instructions, and the first format violation
    /// otherwise.
    #[verifier::rlimit(100)]
    #[verifier::loop_isolation(false)]
    pub fn from_bytes(bytes: Vec<u8>) -> (r: Result<Transaction, DecodeError>)
        ensures
            match r {
                Ok(t) => spec_decode_from(bytes@, 0) == Ok::<Seq<SpecInstruction>, DecodeError>(t@),
                Err(e) => spec_decode_from(bytes@, 0) == Err::<Seq<SpecInstruction>, DecodeError>(e),
            },
    {
        let ghost s = bytes@;
        let mut cursor = Cursor::new(bytes);
        let mut instructions: Vec<Instruction> = Vec::new();
        while cursor.pos < cursor.bytes.len()
            invariant
                cursor.wf(),
                cursor.bytes@ == s,
                spec_decode_from(s, 0) == (match spec_decode_from(s, cursor.pos as int) {
                    Ok(rest) => Ok::<Seq<SpecInstruction>, DecodeError>(
                        spec_views(instructions@) + rest,
                    ),
                    Err(e) => Err::<Seq<SpecInstruction>, DecodeError>(e),
                }),
            decreases cursor.bytes@.len() - cursor.pos,
        {
            let ghost p = cursor.pos as int;
            let ghost prev = instructions@;
            match Instruction::from_buffer(&mut cursor) {
                Ok(inst) => {
                    instructions.push(inst);
                    proof {
                        lemma_instruction_advances(s, p);
                        let p2 = cursor.pos as int;
                        assert(spec_views(instructions@) =~= spec_views(prev).push(inst@));
                        if spec_decode_from(s, p2) is Ok {
                            let rest = spec_decode_from(s, p2)->Ok_0;
                            assert(spec_views(prev) + (seq![inst@] + rest) =~= spec_views(
                                instructions@,
                            ) + rest);
                        }
                    }
                },
                Err(e) => {
                    proof {
                        assert(spec_decode_from(s, p) == Err::<Seq<SpecInstruction>, DecodeError>(
                            e,
                        ));
                    }
                    return Err(e);
                },
            }
        }
        proof {
            assert(spec_views(instructions@) + Seq::<SpecInstruction>::empty() =~= spec_views(
                instructions@,
            ));
        }
        Ok(Transaction { instructions })
    }
}

} // verus!
