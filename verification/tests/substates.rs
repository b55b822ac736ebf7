//! State-entry tag closure tests: every recognized tag decodes to its
//! variant; every other tag byte fails with `UnknownStateEntryTag`.

use transaction_decoder::cursor::DecodeError;
use transaction_decoder::instruction::Instruction;
use transaction_decoder::substate::Substate;
use transaction_decoder::transaction::Transaction;

fn blob(payload: &[u8]) -> Vec<u8> {
    let mut out: Vec<u8> = Vec::new();
    out.extend_from_slice(&(payload.len() as u32).to_be_bytes());
    out.extend_from_slice(payload);
    out
}

fn decode_up(entry: &[u8]) -> Substate {
    let mut buf: Vec<u8> = vec![0x01];
    buf.extend_from_slice(entry);
    let mut tx = Transaction::from_bytes(buf).unwrap();
    assert_eq!(tx.instructions.len(), 1);
    match tx.instructions.remove(0) {
        Instruction::UP(sub) => sub,
        other => panic!("expected UP, got {:?}", other),
    }
}

#[test]
fn tag_re_address() {
    let mut entry: Vec<u8> = vec![0x00];
    entry.extend_from_slice(&blob(&[0x04, 0x05]));
    match decode_up(&entry) {
        Substate::REAddress { address } => assert_eq!(address, vec![0x04, 0x05]),
        other => panic!("expected REAddress, got {:?}", other),
    }
}

#[test]
fn tag_token_definition() {
    let mut entry: Vec<u8> = vec![0x03];
    entry.extend_from_slice(&blob(&[0x01]));
    entry.extend_from_slice(&blob(&[0x02, 0x03]));
    match decode_up(&entry) {
        Substate::TokenDefinition { resource, properties } => {
            assert_eq!(resource, vec![0x01]);
            assert_eq!(properties, vec![0x02, 0x03]);
        },
        other => panic!("expected TokenDefinition, got {:?}", other),
    }
}

#[test]
fn tag_tokens() {
    let mut entry: Vec<u8> = vec![0x04];
    entry.extend_from_slice(&blob(&[0x0A]));
    entry.extend_from_slice(&blob(&[0x0B]));
    entry.extend_from_slice(&blob(&[0x0C, 0x0D]));
    match decode_up(&entry) {
        Substate::Tokens { owner, resource, amount } => {
            assert_eq!(owner, vec![0x0A]);
            assert_eq!(resource, vec![0x0B]);
            assert_eq!(amount, vec![0x0C, 0x0D]);
        },
        other => panic!("expected Tokens, got {:?}", other),
    }
}

#[test]
fn tag_prepared_stake() {
    let mut entry: Vec<u8> = vec![0x05];
    entry.extend_from_slice(&blob(&[0x01]));
    entry.extend_from_slice(&blob(&[0x02]));
    entry.extend_from_slice(&blob(&[0x03]));
    match decode_up(&entry) {
        Substate::PreparedStake { owner, delegate, amount } => {
            assert_eq!(owner, vec![0x01]);
            assert_eq!(delegate, vec![0x02]);
            assert_eq!(amount, vec![0x03]);
        },
        other => panic!("expected PreparedStake, got {:?}", other),
    }
}

#[test]
fn tag_stake_ownership() {
    let mut entry: Vec<u8> = vec![0x06];
    entry.extend_from_slice(&blob(&[0x01]));
    entry.extend_from_slice(&blob(&[0x02]));
    entry.extend_from_slice(&blob(&[0x03]));
    match decode_up(&entry) {
        Substate::StakeOwnership { delegate, owner, amount } => {
            assert_eq!(delegate, vec![0x01]);
            assert_eq!(owner, vec![0x02]);
            assert_eq!(amount, vec![0x03]);
        },
        other => panic!("expected StakeOwnership, got {:?}", other),
    }
}

#[test]
fn tag_prepared_unstake() {
    let mut entry: Vec<u8> = vec![0x07];
    entry.extend_from_slice(&blob(&[0x01]));
    entry.extend_from_slice(&blob(&[0x02]));
    entry.extend_from_slice(&blob(&[0x03]));
    match decode_up(&entry) {
        Substate::PreparedUnstake { delegate, owner, amount } => {
            assert_eq!(delegate, vec![0x01]);
            assert_eq!(owner, vec![0x02]);
            assert_eq!(amount, vec![0x03]);
        },
        other => panic!("expected PreparedUnstake, got {:?}", other),
    }
}

#[test]
fn tag_exiting_stake() {
    let mut entry: Vec<u8> = vec![0x08, 0x00, 0x00, 0x00, 0x2A];
    entry.extend_from_slice(&blob(&[0x01]));
    entry.extend_from_slice(&blob(&[0x02]));
    entry.extend_from_slice(&blob(&[0x03]));
    match decode_up(&entry) {
        Substate::ExitingStake { epoch_unlocked, delegate, owner, amount } => {
            assert_eq!(epoch_unlocked, 42);
            assert_eq!(delegate, vec![0x01]);
            assert_eq!(owner, vec![0x02]);
            assert_eq!(amount, vec![0x03]);
        },
        other => panic!("expected ExitingStake, got {:?}", other),
    }
}

#[test]
fn tag_validator_allow_delegation_flag() {
    let mut entry: Vec<u8> = vec![0x0C];
    entry.extend_from_slice(&blob(&[0x09]));
    entry.push(0x01);
    match decode_up(&entry) {
        Substate::ValidatorAllowDelegationFlag { validator, is_delegation_allowed } => {
            assert_eq!(validator, vec![0x09]);
            assert_eq!(is_delegation_allowed, 1);
        },
        other => panic!("expected ValidatorAllowDelegationFlag, got {:?}", other),
    }
}

#[test]
fn tag_validator_registered_flag_copy() {
    let mut entry: Vec<u8> = vec![0x0D];
    entry.extend_from_slice(&blob(&[0x09]));
    entry.push(0x00);
    match decode_up(&entry) {
        Substate::ValidatorRegisteredFlagCopy { validator, is_registered } => {
            assert_eq!(validator, vec![0x09]);
            assert_eq!(is_registered, 0);
        },
        other => panic!("expected ValidatorRegisteredFlagCopy, got {:?}", other),
    }
}

#[test]
fn tag_prepared_registered_flag_update() {
    let mut entry: Vec<u8> = vec![0x0E];
    entry.extend_from_slice(&blob(&[0x09]));
    entry.push(0x01);
    match decode_up(&entry) {
        Substate::PreparedRegisteredFlagUpdate { validator, is_registered } => {
            assert_eq!(validator, vec![0x09]);
            assert_eq!(is_registered, 1);
        },
        other => panic!("expected PreparedRegisteredFlagUpdate, got {:?}", other),
    }
}

#[test]
fn tag_validator_owner_copy() {
    let mut entry: Vec<u8> = vec![0x11];
    entry.extend_from_slice(&blob(&[0x09]));
    entry.extend_from_slice(&blob(&[0x08]));
    match decode_up(&entry) {
        Substate::ValidatorOwnerCopy { validator, owner } => {
            assert_eq!(validator, vec![0x09]);
            assert_eq!(owner, vec![0x08]);
        },
        other => panic!("expected ValidatorOwnerCopy, got {:?}", other),
    }
}

#[test]
fn unknown_substate_tags_fail_with_byte_and_position() {
    for tag in [0x01u8, 0x02, 0x09, 0x0A, 0x0B, 0x0F, 0x10, 0x12, 0xFF] {
        let r = Transaction::from_bytes(vec![0x01, tag]);
        assert_eq!(r.unwrap_err(), DecodeError::UnknownStateEntryTag(tag, 1));
    }
}

#[test]
fn truncated_substate_payload_is_an_error() {
    // A Tokens entry whose last blob is missing.
    let mut entry: Vec<u8> = vec![0x01, 0x04];
    entry.extend_from_slice(&blob(&[0x0A]));
    entry.extend_from_slice(&blob(&[0x0B]));
    let r = Transaction::from_bytes(entry);
    assert_eq!(r.unwrap_err(), DecodeError::TruncatedInput);
}

#[test]
fn missing_substate_tag_is_an_error() {
    let r = Transaction::from_bytes(vec![0x01]);
    assert_eq!(r.unwrap_err(), DecodeError::TruncatedInput);
}
