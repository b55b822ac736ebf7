//! End-to-end tests for the transaction decoder: one buffer in, one
//! instruction sequence or one error out.

use transaction_decoder::cursor::DecodeError;
use transaction_decoder::instruction::Instruction;
use transaction_decoder::substate::Substate;
use transaction_decoder::transaction::Transaction;

fn blob(payload: &[u8]) -> Vec<u8> {
    let mut out: Vec<u8> = Vec::new();
    out.extend_from_slice(&(payload.len() as u32).to_be_bytes());
    out.extend_from_slice(payload);
    out
}

#[test]
fn empty_buffer_is_empty_transaction() {
    let tx = Transaction::from_bytes(Vec::new()).unwrap();
    assert_eq!(tx.instructions.len(), 0);
}

#[test]
fn concrete_end_to_end_scenario() {
    // HEADER(1, 2) then END; decodes fully with no trailing error.
    let tx = Transaction::from_bytes(vec![0x0A, 0x01, 0x02, 0x00]).unwrap();
    assert_eq!(tx.instructions.len(), 2);
    assert!(matches!(tx.instructions[0], Instruction::HEADER(1, 2)));
    assert!(matches!(tx.instructions[1], Instruction::END));
}

#[test]
fn end_does_not_terminate_early() {
    // END first: the loop stops on exhaustion, not on the END opcode.
    let tx = Transaction::from_bytes(vec![0x00, 0x0A, 0x01, 0x02]).unwrap();
    assert_eq!(tx.instructions.len(), 2);
    assert!(matches!(tx.instructions[0], Instruction::END));
    assert!(matches!(tx.instructions[1], Instruction::HEADER(1, 2)));
}

#[test]
fn truncated_ldown_is_an_error() {
    // An LDOWN opcode byte with none of its four payload bytes.
    let r = Transaction::from_bytes(vec![0x05]);
    assert_eq!(r.unwrap_err(), DecodeError::TruncatedInput);
}

#[test]
fn partially_truncated_ldown_is_an_error() {
    let r = Transaction::from_bytes(vec![0x05, 0x01, 0x02]);
    assert_eq!(r.unwrap_err(), DecodeError::TruncatedInput);
}

#[test]
fn msg_blob_is_exact() {
    // Length prefix 3, then exactly three payload bytes.
    let tx = Transaction::from_bytes(vec![0x06, 0x00, 0x00, 0x00, 0x03, 0xAA, 0xBB, 0xCC]).unwrap();
    assert_eq!(tx.instructions.len(), 1);
    match &tx.instructions[0] {
        Instruction::MSG(payload) => assert_eq!(payload, &vec![0xAA, 0xBB, 0xCC]),
        other => panic!("expected MSG, got {:?}", other),
    }
}

#[test]
fn msg_blob_overrun_is_an_error() {
    // Length prefix 5 with only one payload byte remaining.
    let r = Transaction::from_bytes(vec![0x06, 0x00, 0x00, 0x00, 0x05, 0xAA]);
    assert_eq!(r.unwrap_err(), DecodeError::TruncatedInput);
}

#[test]
fn unknown_opcode_first() {
    let r = Transaction::from_bytes(vec![0x0F]);
    assert_eq!(r.unwrap_err(), DecodeError::UnknownOpcode(0x0F, 0));
}

#[test]
fn unknown_opcode_high_byte() {
    let r = Transaction::from_bytes(vec![0xFF]);
    assert_eq!(r.unwrap_err(), DecodeError::UnknownOpcode(0xFF, 0));
}

#[test]
fn unknown_opcode_carries_its_position() {
    let r = Transaction::from_bytes(vec![0x00, 0x0F]);
    assert_eq!(r.unwrap_err(), DecodeError::UnknownOpcode(0x0F, 1));
}

#[test]
fn opcode_up_decodes_a_state_entry() {
    let mut buf: Vec<u8> = vec![0x01, 0x00];
    buf.extend_from_slice(&blob(&[0xAB, 0xCD]));
    let tx = Transaction::from_bytes(buf).unwrap();
    assert_eq!(tx.instructions.len(), 1);
    match &tx.instructions[0] {
        Instruction::UP(Substate::REAddress { address }) => {
            assert_eq!(address, &vec![0xAB, 0xCD]);
        },
        other => panic!("expected UP(REAddress), got {:?}", other),
    }
}

#[test]
fn opcode_vdown_decodes_a_state_entry() {
    let mut buf: Vec<u8> = vec![0x02, 0x00];
    buf.extend_from_slice(&blob(&[0x01]));
    let tx = Transaction::from_bytes(buf).unwrap();
    assert!(matches!(tx.instructions[0], Instruction::VDOWN(Substate::REAddress { .. })));
}

#[test]
fn opcode_vdownarg_decodes_entry_then_argument() {
    let mut buf: Vec<u8> = vec![0x03, 0x00];
    buf.extend_from_slice(&blob(&[0x01]));
    buf.extend_from_slice(&blob(&[0xEE, 0xFF]));
    let tx = Transaction::from_bytes(buf).unwrap();
    match &tx.instructions[0] {
        Instruction::VDOWNARG(Substate::REAddress { address }, arg) => {
            assert_eq!(address, &vec![0x01]);
            assert_eq!(arg, &vec![0xEE, 0xFF]);
        },
        other => panic!("expected VDOWNARG, got {:?}", other),
    }
}

#[test]
fn opcode_down_decodes_a_substate_id() {
    let mut buf: Vec<u8> = vec![0x04];
    buf.extend_from_slice(&[0x11; 32]);
    buf.extend_from_slice(&[0x00, 0x00, 0x00, 0x07]);
    let tx = Transaction::from_bytes(buf).unwrap();
    match &tx.instructions[0] {
        Instruction::DOWN(id) => {
            assert_eq!(id.hash, vec![0x11; 32]);
            assert_eq!(id.index, 7);
        },
        other => panic!("expected DOWN, got {:?}", other),
    }
}

#[test]
fn truncated_substate_id_is_an_error() {
    let mut buf: Vec<u8> = vec![0x04];
    buf.extend_from_slice(&[0x11; 10]);
    let r = Transaction::from_bytes(buf);
    assert_eq!(r.unwrap_err(), DecodeError::TruncatedInput);
}

#[test]
fn opcode_ldown_reads_big_endian() {
    let tx = Transaction::from_bytes(vec![0x05, 0x00, 0x00, 0x01, 0x02]).unwrap();
    assert!(matches!(tx.instructions[0], Instruction::LDOWN(258)));
}

#[test]
fn opcode_sig_reads_a_fixed_width_signature() {
    let mut buf: Vec<u8> = vec![0x07];
    buf.extend_from_slice(&[0x5A; 65]);
    let tx = Transaction::from_bytes(buf).unwrap();
    match &tx.instructions[0] {
        Instruction::SIG(sig) => assert_eq!(sig.bytes, vec![0x5A; 65]),
        other => panic!("expected SIG, got {:?}", other),
    }
}

#[test]
fn truncated_signature_is_an_error() {
    let mut buf: Vec<u8> = vec![0x07];
    buf.extend_from_slice(&[0x5A; 64]);
    let r = Transaction::from_bytes(buf);
    assert_eq!(r.unwrap_err(), DecodeError::TruncatedInput);
}

#[test]
fn opcode_downall_reads_a_class_byte() {
    let tx = Transaction::from_bytes(vec![0x08, 0x07]).unwrap();
    assert!(matches!(tx.instructions[0], Instruction::DOWNALL(0x07)));
}

#[test]
fn opcode_syscall_reads_a_blob() {
    let mut buf: Vec<u8> = vec![0x09];
    buf.extend_from_slice(&blob(&[0xFE]));
    let tx = Transaction::from_bytes(buf).unwrap();
    match &tx.instructions[0] {
        Instruction::SYSCALL(arg) => assert_eq!(arg, &vec![0xFE]),
        other => panic!("expected SYSCALL, got {:?}", other),
    }
}

#[test]
fn opcode_downindex_reads_a_prefix_blob() {
    let mut buf: Vec<u8> = vec![0x0B];
    buf.extend_from_slice(&blob(&[0x01, 0x02]));
    let tx = Transaction::from_bytes(buf).unwrap();
    match &tx.instructions[0] {
        Instruction::DOWNINDEX(prefix) => assert_eq!(prefix, &vec![0x01, 0x02]),
        other => panic!("expected DOWNINDEX, got {:?}", other),
    }
}

#[test]
fn opcode_lread_reads_big_endian() {
    let tx = Transaction::from_bytes(vec![0x0C, 0x01, 0x02, 0x03, 0x04]).unwrap();
    assert!(matches!(tx.instructions[0], Instruction::LREAD(0x01020304)));
}

#[test]
fn opcode_vread_decodes_a_state_entry() {
    let mut buf: Vec<u8> = vec![0x0D, 0x00];
    buf.extend_from_slice(&blob(&[0x02]));
    let tx = Transaction::from_bytes(buf).unwrap();
    assert!(matches!(tx.instructions[0], Instruction::VREAD(Substate::REAddress { .. })));
}

#[test]
fn opcode_read_decodes_a_substate_id() {
    let mut buf: Vec<u8> = vec![0x0E];
    buf.extend_from_slice(&[0x22; 32]);
    buf.extend_from_slice(&[0x00, 0x00, 0x00, 0x01]);
    let tx = Transaction::from_bytes(buf).unwrap();
    match &tx.instructions[0] {
        Instruction::READ(id) => {
            assert_eq!(id.hash, vec![0x22; 32]);
            assert_eq!(id.index, 1);
        },
        other => panic!("expected READ, got {:?}", other),
    }
}

#[test]
fn total_consumption_over_many_instructions() {
    // A composite buffer: every byte belongs to exactly one instruction.
    let mut buf: Vec<u8> = vec![0x0A, 0x01, 0x02];
    buf.push(0x06);
    buf.extend_from_slice(&blob(&[0x10, 0x20]));
    buf.push(0x05);
    buf.extend_from_slice(&[0x00, 0x00, 0x00, 0x09]);
    buf.push(0x00);
    let tx = Transaction::from_bytes(buf).unwrap();
    assert_eq!(tx.instructions.len(), 4);
    assert!(matches!(tx.instructions[0], Instruction::HEADER(1, 2)));
    assert!(matches!(tx.instructions[1], Instruction::MSG(_)));
    assert!(matches!(tx.instructions[2], Instruction::LDOWN(9)));
    assert!(matches!(tx.instructions[3], Instruction::END));
}
