//! Decisions of the read-only queries that share the streaming service's
//! chain-id gate.
use vstd::prelude::*;

verus! {

/// The lifecycle state of a validator.
#[derive(Debug, Clone, Copy, PartialEq, Eq, Structural)]
pub enum ValidatorState {
    Defined,
    Inactive,
    Active,
    Jailed,
    Tombstoned,
    Disabled,
}

/// Whether a validator in `state` is listed: every validator when inactive
/// ones were asked for, else only the active ones.
pub open spec fn is_listed(show_inactive: bool, state: ValidatorState) -> bool {
    show_inactive || state == ValidatorState::Active
}

pub fn validator_listed(show_inactive: bool, state: ValidatorState) -> (r: bool)
    ensures
        r == is_listed(show_inactive, state),
{
    show_inactive || state == ValidatorState::Active
}

} // verus!
