//! Decisions of the multisig client around the execution engine.
//!
//! A proposal is a dry run: the engine executes the transaction up to its authentication, and
//! stops there with the commitment the signers must sign. Only that stop is a proposal.
use vstd::prelude::*;

verus! {

/// Errors that can occur in the multisig client.
#[derive(Clone, Debug, PartialEq, Eq)]
pub enum MultisigClientError {
    /// An error occurred while proposing a new transaction.
    TxProposalError(String),
    /// An error occurred while executing a transaction.
    TxExecutionError(String),
    /// The transaction changes nothing that needs the signers' approval, so there is nothing to
    /// sign.
    NoAuthorizationRequired,
}

/// What the engine's dry run of a transaction came to.
#[derive(Clone, Debug, PartialEq, Eq)]
pub enum DryRunOutcome {
    /// The transaction was executed: it needed no authorization.
    Executed,
    /// The engine stopped for want of authorization, with the commitment to the transaction
    /// summary that the signers must sign.
    Unauthorized { commitment: [u64; 4] },
    /// The engine failed for another reason, described by `message`.
    Failed { message: String },
}

/// The digest to sign that a dry run produced, or why it produced none: a transaction that the
/// engine executed needs no signatures, and any other failure is a proposal error.
pub fn proposal_from_dry_run(outcome: DryRunOutcome) -> (r: Result<[u64; 4], MultisigClientError>)
    ensures
        match outcome {
            DryRunOutcome::Executed => r == Err::<[u64; 4], MultisigClientError>(
                MultisigClientError::NoAuthorizationRequired,
            ),
            DryRunOutcome::Unauthorized { commitment } => r == Ok::<
                [u64; 4],
                MultisigClientError,
            >(commitment),
            DryRunOutcome::Failed { message } => r matches Err(
                MultisigClientError::TxProposalError(m),
            ) && m@ == message@,
        },
{
    match outcome {
        DryRunOutcome::Executed => Err(MultisigClientError::NoAuthorizationRequired),
        DryRunOutcome::Unauthorized { commitment } => Ok(commitment),
        DryRunOutcome::Failed { message } => Err(MultisigClientError::TxProposalError(message)),
    }
}

} // verus!
