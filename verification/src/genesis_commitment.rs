//! Pluggable state commitment of genesis initialization.

use vstd::prelude::*;

use crate::primitives::B256;

verus! {

/// A database that holds the genesis state and can compute the root of its Merkle Patricia trie.
pub trait StateRootProvider {
    /// Why initialization failed.
    type Error;

    /// Computes the state root, and writes the trie as it goes.
    fn compute_state_root_for_commitment(&self) -> Result<B256, Self::Error>;
}

/// Pluggable state commitment for genesis initialization: computes the genesis state root from the
/// state that was written to the database, and persists what belongs to the commitment.
pub trait GenesisCommitmentProvider: Send + Sync {
    /// What the computation produces and persisting consumes.
    type CommitmentData: Send + Sync;

    /// Computes the genesis state root.
    fn compute_genesis_root<Provider: StateRootProvider, Genesis>(
        &self,
        provider: &Provider,
        genesis: &Genesis,
    ) -> Result<(B256, Self::CommitmentData), Provider::Error>;

    /// Persists what the computation produced, before the genesis transaction is committed.
    fn write_genesis_commitment<Provider: StateRootProvider>(
        &self,
        provider: &Provider,
        data: Self::CommitmentData,
    ) -> Result<(), Provider::Error>;
}

/// The default commitment: the Merkle Patricia trie.
#[derive(Debug, Default, Clone)]
pub struct MptGenesisCommitment;

/// The genesis commitment, given what the computation of the trie's root came to. The trie is
/// written in the course of that computation, so that nothing remains to be persisted.
pub open spec fn mpt_commitment<E>(computed: Result<B256, E>) -> Result<(B256, ()), E> {
    match computed {
        Ok(root) => Ok((root, ())),
        Err(error) => Err(error),
    }
}

impl MptGenesisCommitment {
    /// The genesis commitment, given what the computation of the trie's root came to.
    pub fn commitment_of<E>(computed: Result<B256, E>) -> (result: Result<(B256, ()), E>)
        ensures
            result == mpt_commitment(computed),
    {
        match computed {
            Ok(root) => Ok((root, ())),
            Err(error) => Err(error),
        }
    }
}

impl GenesisCommitmentProvider for MptGenesisCommitment {
    type CommitmentData = ();

    /// The root that the database computes, whatever the allocations.
    fn compute_genesis_root<Provider: StateRootProvider, Genesis>(
        &self,
        provider: &Provider,
        genesis: &Genesis,
    ) -> (result: Result<(B256, ()), Provider::Error>)
        ensures
            exists|computed: Result<B256, Provider::Error>| #[trigger]
                call_ensures(
                    <Provider as StateRootProvider>::compute_state_root_for_commitment,
                    (provider,),
                    computed,
                ) && result == mpt_commitment(computed),
    {
        let computed = provider.compute_state_root_for_commitment();
        Self::commitment_of(computed)
    }

    /// Persists nothing: the trie is already written.
    fn write_genesis_commitment<Provider: StateRootProvider>(
        &self,
        provider: &Provider,
        data: (),
    ) -> (result: Result<(), Provider::Error>)
        ensures
            result == Ok::<(), Provider::Error>(()),
    {
        Ok(())
    }
}

} // verus!
