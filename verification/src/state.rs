//! Checks against a snapshot of chain state. The full consensus state is an
//! external collaborator; what the checks read — each validator's activation
//! and exit epochs, the epoch under consideration, the chain's proposer index —
//! comes in as plain values.

use vstd::prelude::*;

use crate::types::ValidatorError;

verus! {

/// The activity window of one validator in the chain's validator list.
#[derive(Clone, Copy, Debug, PartialEq, Eq, Structural)]
pub struct ValidatorStatus {
    pub activation_epoch: u64,
    pub exit_epoch: u64,
}

/// A validator is active from its activation epoch up to, and excluding, its
/// exit epoch.
pub open spec fn is_active_at(status: ValidatorStatus, epoch: u64) -> bool {
    status.activation_epoch <= epoch < status.exit_epoch
}

/// Whether the validator at an index of the chain's validator list is active
/// at an epoch; an index beyond the end of the list is an error.
pub fn check_if_validator_active(
    validators: &Vec<ValidatorStatus>,
    current_epoch: u64,
    validator_index: u64,
) -> (r: Result<bool, ValidatorError>)
    ensures
        r is Ok <==> validator_index < validators@.len(),
        r matches Ok(active) ==> active == is_active_at(
            validators@[validator_index as int],
            current_epoch,
        ),
        r matches Err(e) ==> e == (ValidatorError::ValidatorIndexOutOfBounds { validator_index }),
{
    if validator_index >= validators.len() as u64 {
        return Err(ValidatorError::ValidatorIndexOutOfBounds { validator_index });
    }
    let status = validators[validator_index as usize];
    Ok(status.activation_epoch <= current_epoch && current_epoch < status.exit_epoch)
}

/// Whether a validator is the chain's proposer: the proposer index the chain
/// derived for the slot equals the validator's own index.
pub fn is_proposer(proposer_index: u64, validator_index: u64) -> (r: bool)
    ensures
        r == (proposer_index == validator_index),
{
    proposer_index == validator_index
}

} // verus!
