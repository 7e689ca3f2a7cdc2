use diesis::commitment::{CommitmentError, CommitmentValidator};
use diesis::genesis_commitment::{
    GenesisCommitmentProvider, MptGenesisCommitment, StateRootProvider,
};
use diesis::primitives::B256;
use revm::database::BundleState;

const ROOT: B256 = B256 { bytes: [6; 32] };

struct Database {
    root: Option<B256>,
}

impl StateRootProvider for Database {
    type Error = &'static str;

    fn compute_state_root_for_commitment(&self) -> Result<B256, &'static str> {
        self.root.ok_or("no state")
    }
}

struct Counting;

impl CommitmentValidator for Counting {
    type Updates = u64;
    type DbTx = ();

    fn compute_state_root(
        &self,
        parent_block: u64,
        bundle_state: &BundleState,
    ) -> Result<(B256, u64), CommitmentError> {
        Ok((B256 { bytes: [bundle_state.state.len() as u8; 32] }, parent_block + 1))
    }

    fn write_updates(
        &self,
        _: &(),
        block_number: u64,
        updates: &u64,
    ) -> Result<(), CommitmentError> {
        if block_number == *updates {
            Ok(())
        } else {
            Err(CommitmentError::Persistence(format!("block {block_number}")))
        }
    }
}

#[test]
fn errors_in_words() {
    assert_eq!(
        CommitmentError::Computation(String::from("no root")).to_string(),
        "commitment computation failed: no root"
    );
    assert_eq!(
        CommitmentError::Persistence(String::from("disk full")).to_string(),
        "commitment persistence failed: disk full"
    );
}

#[test]
fn validators_can_be_plugged_in() {
    let (root, updates) = Counting.compute_state_root(4, &BundleState::default()).unwrap();
    assert_eq!(root, B256 { bytes: [0; 32] });
    assert!(Counting.write_updates(&(), 5, &updates).is_ok());
    assert_eq!(
        Counting.write_updates(&(), 6, &updates).unwrap_err().to_string(),
        "commitment persistence failed: block 6"
    );
}

#[test]
fn default_commitment_is_the_root_of_the_database() {
    let database = Database { root: Some(ROOT) };
    let (root, data) = MptGenesisCommitment.compute_genesis_root(&database, &()).unwrap();
    assert_eq!(root, ROOT);
    assert_eq!(MptGenesisCommitment.write_genesis_commitment(&database, data), Ok(()));
}

#[test]
fn default_commitment_fails_with_the_database() {
    let database = Database { root: None };
    assert_eq!(MptGenesisCommitment.compute_genesis_root(&database, &()), Err("no state"));
    assert_eq!(MptGenesisCommitment::commitment_of::<u8>(Err(1)), Err(1));
}
