//! Pluggable state commitment of the engine's payload validation.
//!
//! [`CommitmentValidator`] abstracts over how state roots are computed and persisted, so that
//! another scheme than the Merkle Patricia trie can be plugged in.

use revm::database::BundleState;
use vstd::prelude::*;

use crate::primitives::B256;

verus! {

/// Error of a commitment operation.
#[derive(Debug)]
pub enum CommitmentError {
    /// The state root computation itself failed.
    Computation(String),
    /// Writing commitment data to the database failed.
    Persistence(String),
}

impl CommitmentError {
    /// The error in words.
    pub open spec fn text(&self) -> Seq<char> {
        match self {
            CommitmentError::Computation(cause) => "commitment computation failed: "@ + cause@,
            CommitmentError::Persistence(cause) => "commitment persistence failed: "@ + cause@,
        }
    }

    /// The error in words.
    pub fn to_string(&self) -> (text: String)
        ensures
            text@ == self.text(),
    {
        match self {
            CommitmentError::Computation(cause) => {
                let mut text = "commitment computation failed: ".to_owned();
                text.append(cause.as_str());
                text
            },
            CommitmentError::Persistence(cause) => {
                let mut text = "commitment persistence failed: ".to_owned();
                text.append(cause.as_str());
                text
            },
        }
    }
}

/// What the execution of a block changed in the state, as `revm` holds it.
#[verifier::external_type_specification]
#[verifier::external_body]
pub struct ExBundleState(BundleState);

/// Validates the state commitment of incoming blocks: computes a state root from what a block
/// changed, and persists what the computation produced along with the block.
pub trait CommitmentValidator: Send + Sync {
    /// What the computation produces and persisting consumes.
    type Updates: Send + Sync + Clone;

    /// The database transaction that commits the block.
    type DbTx;

    /// Computes the state root after a block whose parent is block number `parent_block`.
    fn compute_state_root(
        &self,
        parent_block: u64,
        bundle_state: &BundleState,
    ) -> Result<(B256, Self::Updates), CommitmentError>;

    /// Persists what a computation produced, within the transaction that commits the block.
    fn write_updates(
        &self,
        tx: &Self::DbTx,
        block_number: u64,
        updates: &Self::Updates,
    ) -> Result<(), CommitmentError>;
}

} // verus!
