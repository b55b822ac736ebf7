//! State-entry decoder.
//!
//! A state entry is a one-byte type tag followed by a fixed field layout
//! chosen from a closed set of eleven record variants.  A tag outside the
//! set is a fatal format violation: decoding aborts with
//! [`DecodeError::UnknownStateEntryTag`] and no partial entry is returned.

use vstd::prelude::*;

use crate::cursor::Cursor;
use crate::cursor::DecodeError;
use crate::cursor::spec_blob_width;
use crate::cursor::spec_read_blob;
use crate::cursor::spec_read_u32;
use crate::cursor::spec_read_u8;

verus! {

/// A ledger state record: a closed, tagged set of variants, each with its
/// own fixed field layout.  Variable-width fields are length-prefixed
/// blobs; flags are single bytes.
#[derive(Debug)]
pub enum Substate {
    /// An address record.
    REAddress { address: Vec<u8> },
    /// A token-definition record.
    TokenDefinition { resource: Vec<u8>, properties: Vec<u8> },
    /// A token-balance record.
    Tokens { owner: Vec<u8>, resource: Vec<u8>, amount: Vec<u8> },
    /// A stake-preparation record.
    PreparedStake { owner: Vec<u8>, delegate: Vec<u8>, amount: Vec<u8> },
    /// A stake-ownership record.
    StakeOwnership { delegate: Vec<u8>, owner: Vec<u8>, amount: Vec<u8> },
    /// An unstake-preparation record.
    PreparedUnstake { delegate: Vec<u8>, owner: Vec<u8>, amount: Vec<u8> },
    /// An exiting-stake record.
    ExitingStake { epoch_unlocked: u32, delegate: Vec<u8>, owner: Vec<u8>, amount: Vec<u8> },
    /// A validator-delegation-flag record.
    ValidatorAllowDelegationFlag { validator: Vec<u8>, is_delegation_allowed: u8 },
    /// A validator-registration-flag record.
    ValidatorRegisteredFlagCopy { validator: Vec<u8>, is_registered: u8 },
    /// A registration-flag-update record.
    PreparedRegisteredFlagUpdate { validator: Vec<u8>, is_registered: u8 },
    /// A validator-owner record.
    ValidatorOwnerCopy { validator: Vec<u8>, owner: Vec<u8> },
}

/// Mathematical model of a [`Substate`].
pub enum SpecSubstate {
    REAddress { address: Seq<u8> },
    TokenDefinition { resource: Seq<u8>, properties: Seq<u8> },
    Tokens { owner: Seq<u8>, resource: Seq<u8>, amount: Seq<u8> },
    PreparedStake { owner: Seq<u8>, delegate: Seq<u8>, amount: Seq<u8> },
    StakeOwnership { delegate: Seq<u8>, owner: Seq<u8>, amount: Seq<u8> },
    PreparedUnstake { delegate: Seq<u8>, owner: Seq<u8>, amount: Seq<u8> },
    ExitingStake { epoch_unlocked: u32, delegate: Seq<u8>, owner: Seq<u8>, amount: Seq<u8> },
    ValidatorAllowDelegationFlag { validator: Seq<u8>, is_delegation_allowed: u8 },
    ValidatorRegisteredFlagCopy { validator: Seq<u8>, is_registered: u8 },
    PreparedRegisteredFlagUpdate { validator: Seq<u8>, is_registered: u8 },
    ValidatorOwnerCopy { validator: Seq<u8>, owner: Seq<u8> },
}

impl View for Substate {
    type V = SpecSubstate;

    open spec fn view(&self) -> SpecSubstate {
        match self {
            Substate::REAddress { address } => SpecSubstate::REAddress { address: address@ },
            Substate::TokenDefinition { resource, properties } => SpecSubstate::TokenDefinition {
                resource: resource@,
                properties: properties@,
            },
            Substate::Tokens { owner, resource, amount } => SpecSubstate::Tokens {
                owner: owner@,
                resource: resource@,
                amount: amount@,
            },
            Substate::PreparedStake { owner, delegate, amount } => SpecSubstate::PreparedStake {
                owner: owner@,
                delegate: delegate@,
                amount: amount@,
            },
            Substate::StakeOwnership { delegate, owner, amount } => SpecSubstate::StakeOwnership {
                delegate: delegate@,
                owner: owner@,
                amount: amount@,
            },
            Substate::PreparedUnstake { delegate, owner, amount } => SpecSubstate::PreparedUnstake {
                delegate: delegate@,
                owner: owner@,
                amount: amount@,
            },
            Substate::ExitingStake { epoch_unlocked, delegate, owner, amount } => (
            SpecSubstate::ExitingStake {
                epoch_unlocked: *epoch_unlocked,
                delegate: delegate@,
                owner: owner@,
                amount: amount@,
            }),
            Substate::ValidatorAllowDelegationFlag { validator, is_delegation_allowed } => (
            SpecSubstate::ValidatorAllowDelegationFlag {
                validator: validator@,
                is_delegation_allowed: *is_delegation_allowed,
            }),
            Substate::ValidatorRegisteredFlagCopy { validator, is_registered } => (
            SpecSubstate::ValidatorRegisteredFlagCopy {
                validator: validator@,
                is_registered: *is_registered,
            }),
            Substate::PreparedRegisteredFlagUpdate { validator, is_registered } => (
            SpecSubstate::PreparedRegisteredFlagUpdate {
                validator: validator@,
                is_registered: *is_registered,
            }),
            Substate::ValidatorOwnerCopy { validator, owner } => SpecSubstate::ValidatorOwnerCopy {
                validator: validator@,
                owner: owner@,
            },
        }
    }
}

/// Whether `t` is one of the eleven recognized state-entry tags.
pub open spec fn is_substate_tag(t: u8) -> bool {
    t == 0x00 || (0x03 <= t && t <= 0x08) || (0x0C <= t && t <= 0x0E) || t == 0x11
}

/// The type tag under which a state entry is encoded.
pub open spec fn spec_substate_tag_of(sub: SpecSubstate) -> u8 {
    match sub {
        SpecSubstate::REAddress { .. } => 0x00,
        SpecSubstate::TokenDefinition { .. } => 0x03,
        SpecSubstate::Tokens { .. } => 0x04,
        SpecSubstate::PreparedStake { .. } => 0x05,
        SpecSubstate::StakeOwnership { .. } => 0x06,
        SpecSubstate::PreparedUnstake { .. } => 0x07,
        SpecSubstate::ExitingStake { .. } => 0x08,
        SpecSubstate::ValidatorAllowDelegationFlag { .. } => 0x0C,
        SpecSubstate::ValidatorRegisteredFlagCopy { .. } => 0x0D,
        SpecSubstate::PreparedRegisteredFlagUpdate { .. } => 0x0E,
        SpecSubstate::ValidatorOwnerCopy { .. } => 0x11,
    }
}

/// A state entry starting at `pos`: one tag byte, then the fixed field
/// layout of the variant the tag selects.
#[verifier::opaque]
pub open spec fn spec_read_substate(s: Seq<u8>, pos: int) -> Result<(SpecSubstate, int), DecodeError> {
    match spec_read_u8(s, pos) {
        Err(e) => Err(e),
        Ok((tag, p)) => if tag == 0x00 {
            match spec_read_blob(s, p) {
                Ok((address, p1)) => Ok((SpecSubstate::REAddress { address }, p1)),
                Err(e) => Err(e),
            }
        } else if tag == 0x03 {
            match spec_read_blob(s, p) {
                Ok((resource, p1)) => match spec_read_blob(s, p1) {
                    Ok((properties, p2)) => Ok(
                        (SpecSubstate::TokenDefinition { resource, properties }, p2),
                    ),
                    Err(e) => Err(e),
                },
                Err(e) => Err(e),
            }
        } else if tag == 0x04 {
            match spec_read_blob(s, p) {
                Ok((owner, p1)) => match spec_read_blob(s, p1) {
                    Ok((resource, p2)) => match spec_read_blob(s, p2) {
                        Ok((amount, p3)) => Ok((SpecSubstate::Tokens { owner, resource, amount }, p3)),
                        Err(e) => Err(e),
                    },
                    Err(e) => Err(e),
                },
                Err(e) => Err(e),
            }
        } else if tag == 0x05 {
            match spec_read_blob(s, p) {
                Ok((owner, p1)) => match spec_read_blob(s, p1) {
                    Ok((delegate, p2)) => match spec_read_blob(s, p2) {
                        Ok((amount, p3)) => Ok(
                            (SpecSubstate::PreparedStake { owner, delegate, amount }, p3),
                        ),
                        Err(e) => Err(e),
                    },
                    Err(e) => Err(e),
                },
                Err(e) => Err(e),
            }
        } else if tag == 0x06 {
            match spec_read_blob(s, p) {
                Ok((delegate, p1)) => match spec_read_blob(s, p1) {
                    Ok((owner, p2)) => match spec_read_blob(s, p2) {
                        Ok((amount, p3)) => Ok(
                            (SpecSubstate::StakeOwnership { delegate, owner, amount }, p3),
                        ),
                        Err(e) => Err(e),
                    },
                    Err(e) => Err(e),
                },
                Err(e) => Err(e),
            }
        } else if tag == 0x07 {
            match spec_read_blob(s, p) {
                Ok((delegate, p1)) => match spec_read_blob(s, p1) {
                    Ok((owner, p2)) => match spec_read_blob(s, p2) {
                        Ok((amount, p3)) => Ok(
                            (SpecSubstate::PreparedUnstake { delegate, owner, amount }, p3),
                        ),
                        Err(e) => Err(e),
                    },
                    Err(e) => Err(e),
                },
                Err(e) => Err(e),
            }
        } else if tag == 0x08 {
            match spec_read_u32(s, p) {
                Ok((epoch_unlocked, p1)) => match spec_read_blob(s, p1) {
                    Ok((delegate, p2)) => match spec_read_blob(s, p2) {
                        Ok((owner, p3)) => match spec_read_blob(s, p3) {
                            Ok((amount, p4)) => Ok(
                                (SpecSubstate::ExitingStake { epoch_unlocked, delegate, owner, amount }, p4),
                            ),
                            Err(e) => Err(e),
                        },
                        Err(e) => Err(e),
                    },
                    Err(e) => Err(e),
                },
                Err(e) => Err(e),
            }
        } else if tag == 0x0C {
            match spec_read_blob(s, p) {
                Ok((validator, p1)) => match spec_read_u8(s, p1) {
                    Ok((is_delegation_allowed, p2)) => Ok(
                        (SpecSubstate::ValidatorAllowDelegationFlag { validator, is_delegation_allowed }, p2),
                    ),
                    Err(e) => Err(e),
                },
                Err(e) => Err(e),
            }
        } else if tag == 0x0D {
            match spec_read_blob(s, p) {
                Ok((validator, p1)) => match spec_read_u8(s, p1) {
                    Ok((is_registered, p2)) => Ok(
                        (SpecSubstate::ValidatorRegisteredFlagCopy { validator, is_registered }, p2),
                    ),
                    Err(e) => Err(e),
                },
                Err(e) => Err(e),
            }
        } else if tag == 0x0E {
            match spec_read_blob(s, p) {
                Ok((validator, p1)) => match spec_read_u8(s, p1) {
                    Ok((is_registered, p2)) => Ok(
                        (SpecSubstate::PreparedRegisteredFlagUpdate { validator, is_registered }, p2),
                    ),
                    Err(e) => Err(e),
                },
                Err(e) => Err(e),
            }
        } else if tag == 0x11 {
            match spec_read_blob(s, p) {
                Ok((validator, p1)) => match spec_read_blob(s, p1) {
                    Ok((owner, p2)) => Ok((SpecSubstate::ValidatorOwnerCopy { validator, owner }, p2)),
                    Err(e) => Err(e),
                },
                Err(e) => Err(e),
            }
        } else {
            Err(DecodeError::UnknownStateEntryTag(tag, pos as usize))
        },
    }
}

/// Width in bytes of a state entry when encoded: the tag byte plus the
/// fixed field layout of its variant.
pub open spec fn spec_substate_width(sub: SpecSubstate) -> int {
    1 + match sub {
        SpecSubstate::REAddress { address } => spec_blob_width(address),
        SpecSubstate::TokenDefinition { resource, properties } => spec_blob_width(resource)
            + spec_blob_width(properties),
        SpecSubstate::Tokens { owner, resource, amount } => spec_blob_width(owner)
            + spec_blob_width(resource) + spec_blob_width(amount),
        SpecSubstate::PreparedStake { owner, delegate, amount } => spec_blob_width(owner)
            + spec_blob_width(delegate) + spec_blob_width(amount),
        SpecSubstate::StakeOwnership { delegate, owner, amount } => spec_blob_width(delegate)
            + spec_blob_width(owner) + spec_blob_width(amount),
        SpecSubstate::PreparedUnstake { delegate, owner, amount } => spec_blob_width(delegate)
            + spec_blob_width(owner) + spec_blob_width(amount),
        SpecSubstate::ExitingStake { delegate, owner, amount, .. } => 4 + spec_blob_width(delegate)
            + spec_blob_width(owner) + spec_blob_width(amount),
        SpecSubstate::ValidatorAllowDelegationFlag { validator, .. } => spec_blob_width(validator)
            + 1,
        SpecSubstate::ValidatorRegisteredFlagCopy { validator, .. } => spec_blob_width(validator)
            + 1,
        SpecSubstate::PreparedRegisteredFlagUpdate { validator, .. } => spec_blob_width(validator)
            + 1,
        SpecSubstate::ValidatorOwnerCopy { validator, owner } => spec_blob_width(validator)
            + spec_blob_width(owner),
    }
}

/// An encoded state entry occupies exactly its width: a successful read
/// ends `spec_substate_width` bytes after where it started.
pub proof fn lemma_substate_width(s: Seq<u8>, pos: int)
    ensures
        (match spec_read_substate(s, pos) {
            Ok((sub, p2)) => p2 - pos == spec_substate_width(sub),
            Err(_) => true,
        }),
{
    reveal(spec_read_substate);
}

/// State-entry tag closure, unknown side: a tag byte outside the
/// recognized set fails with exactly that byte and its position.
pub proof fn lemma_unknown_substate_tag(s: Seq<u8>, pos: int)
    requires
        0 <= pos < s.len(),
        !is_substate_tag(s[pos]),
    ensures
        spec_read_substate(s, pos) == Err::<(SpecSubstate, int), DecodeError>(
            DecodeError::UnknownStateEntryTag(s[pos], pos as usize),
        ),
{
    reveal(spec_read_substate);
}

/// State-entry tag closure, known side: a successfully decoded entry is
/// the variant its tag byte selects.
pub proof fn lemma_substate_tag_matches(s: Seq<u8>, pos: int)
    requires
        spec_read_substate(s, pos) is Ok,
    ensures
        0 <= pos < s.len(),
        is_substate_tag(s[pos]),
        spec_substate_tag_of(spec_read_substate(s, pos)->Ok_0.0) == s[pos],
{
    reveal(spec_read_substate);
}

/// A successfully read state entry ends strictly after its start and
/// within the buffer.
pub proof fn lemma_substate_advances(s: Seq<u8>, pos: int)
    ensures
        (match spec_read_substate(s, pos) {
            Ok((sub, p2)) => pos < p2 <= s.len(),
            Err(_) => true,
        }),
{
    reveal(spec_read_substate);
}

impl Substate {
    /// Reads one state entry and advances past it.  On an error the
    /// position may rest inside the entry; decoding aborts there, so no
    /// later read sees it.
    pub fn from_buffer(cursor: &mut Cursor) -> (r: Result<Substate, DecodeError>)
        requires
            old(cursor).wf(),
        ensures
            final(cursor).wf(),
            final(cursor).bytes@ == old(cursor).bytes@,
            match r {
                Ok(sub) => spec_read_substate(old(cursor).bytes@, old(cursor).pos as int)
                    == Ok::<(SpecSubstate, int), DecodeError>((sub@, final(cursor).pos as int)),
                Err(e) => spec_read_substate(old(cursor).bytes@, old(cursor).pos as int)
                    == Err::<(SpecSubstate, int), DecodeError>(e),
            },
    {
        proof {
            reveal(spec_read_substate);
        }
        let tag_pos = cursor.pos;
        let tag = match cursor.read_u8() {
            Ok(t) => t,
            Err(e) => {
                return Err(e);
            },
        };
        match tag {
            0x00 => {
                let address = match cursor.read_blob() {
                    Ok(v) => v,
                    Err(e) => {
                        return Err(e);
                    },
                };
                Ok(Substate::REAddress { address })
            },
            0x03 => {
                let resource = match cursor.read_blob() {
                    Ok(v) => v,
                    Err(e) => {
                        return Err(e);
                    },
                };
                let properties = match cursor.read_blob() {
                    Ok(v) => v,
                    Err(e) => {
                        return Err(e);
                    },
                };
                Ok(Substate::TokenDefinition { resource, properties })
            },
            0x04 => {
                let owner = match cursor.read_blob() {
                    Ok(v) => v,
                    Err(e) => {
                        return Err(e);
                    },
                };
                let resource = match cursor.read_blob() {
                    Ok(v) => v,
                    Err(e) => {
                        return Err(e);
                    },
                };
                let amount = match cursor.read_blob() {
                    Ok(v) => v,
                    Err(e) => {
                        return Err(e);
                    },
                };
                Ok(Substate::Tokens { owner, resource, amount })
            },
            0x05 => {
                let owner = match cursor.read_blob() {
                    Ok(v) => v,
                    Err(e) => {
                        return Err(e);
                    },
                };
                let delegate = match cursor.read_blob() {
                    Ok(v) => v,
                    Err(e) => {
                        return Err(e);
                    },
                };
                let amount = match cursor.read_blob() {
                    Ok(v) => v,
                    Err(e) => {
                        return Err(e);
                    },
                };
                Ok(Substate::PreparedStake { owner, delegate, amount })
            },
            0x06 => {
                let delegate = match cursor.read_blob() {
                    Ok(v) => v,
                    Err(e) => {
                        return Err(e);
                    },
                };
                let owner = match cursor.read_blob() {
                    Ok(v) => v,
                    Err(e) => {
                        return Err(e);
                    },
                };
                let amount = match cursor.read_blob() {
                    Ok(v) => v,
                    Err(e) => {
                        return Err(e);
                    },
                };
                Ok(Substate::StakeOwnership { delegate, owner, amount })
            },
            0x07 => {
                let delegate = match cursor.read_blob() {
                    Ok(v) => v,
                    Err(e) => {
                        return Err(e);
                    },
                };
                let owner = match cursor.read_blob() {
                    Ok(v) => v,
                    Err(e) => {
                        return Err(e);
                    },
                };
                let amount = match cursor.read_blob() {
                    Ok(v) => v,
                    Err(e) => {
                        return Err(e);
                    },
                };
                Ok(Substate::PreparedUnstake { delegate, owner, amount })
            },
            0x08 => {
                let epoch_unlocked = match cursor.read_u32() {
                    Ok(v) => v,
                    Err(e) => {
                        return Err(e);
                    },
                };
                let delegate = match cursor.read_blob() {
                    Ok(v) => v,
                    Err(e) => {
                        return Err(e);
                    },
                };
                let owner = match cursor.read_blob() {
                    Ok(v) => v,
                    Err(e) => {
                        return Err(e);
                    },
                };
                let amount = match cursor.read_blob() {
                    Ok(v) => v,
                    Err(e) => {
                        return Err(e);
                    },
                };
                Ok(Substate::ExitingStake { epoch_unlocked, delegate, owner, amount })
            },
            0x0C => {
                let validator = match cursor.read_blob() {
                    Ok(v) => v,
                    Err(e) => {
                        return Err(e);
                    },
                };
                let is_delegation_allowed = match cursor.read_u8() {
                    Ok(v) => v,
                    Err(e) => {
                        return Err(e);
                    },
                };
                Ok(Substate::ValidatorAllowDelegationFlag { validator, is_delegation_allowed })
            },
            0x0D => {
                let validator = match cursor.read_blob() {
                    Ok(v) => v,
                    Err(e) => {
                        return Err(e);
                    },
                };
                let is_registered = match cursor.read_u8() {
                    Ok(v) => v,
                    Err(e) => {
                        return Err(e);
                    },
                };
                Ok(Substate::ValidatorRegisteredFlagCopy { validator, is_registered })
            },
            0x0E => {
                let validator = match cursor.read_blob() {
                    Ok(v) => v,
                    Err(e) => {
                        return Err(e);
                    },
                };
                let is_registered = match cursor.read_u8() {
                    Ok(v) => v,
                    Err(e) => {
                        return Err(e);
                    },
                };
                Ok(Substate::PreparedRegisteredFlagUpdate { validator, is_registered })
            },
            0x11 => {
                let validator = match cursor.read_blob() {
                    Ok(v) => v,
                    Err(e) => {
                        return Err(e);
                    },
                };
                let owner = match cursor.read_blob() {
                    Ok(v) => v,
                    Err(e) => {
                        return Err(e);
                    },
                };
                Ok(Substate::ValidatorOwnerCopy { validator, owner })
            },
            _ => Err(DecodeError::UnknownStateEntryTag(tag, tag_pos)),
        }
    }
}

} // verus!
