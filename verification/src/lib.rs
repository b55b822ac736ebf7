//! Decoder for binary-encoded ledger transactions.
//!
//! A transaction is a flat byte buffer holding a back-to-back sequence of
//! instructions, each a one-byte opcode followed by an opcode-specific
//! payload.  Some payloads embed a second tagged union, the state entry.
//! The decoder walks the buffer in a single pass with a cursor and either
//! returns the complete, fully decoded instruction sequence or a single
//! error naming the kind of format violation and where it was found.

pub mod cursor;
pub mod instruction;
pub mod substate;
pub mod transaction;
pub mod types;
