//! What comes with a blob transaction while it is gossiped.

use vstd::prelude::*;

verus! {

/// The content of a blob.
pub type Blob = [u8; 131_072];

/// A commitment to a blob, or a proof.
pub type Bytes48 = [u8; 48];

/// A sidecar with one proof for each blob.
#[derive(Debug)]
pub struct BlobTransactionSidecar {
    /// The blobs.
    pub blobs: Vec<Blob>,
    /// The commitments to the blobs.
    pub commitments: Vec<Bytes48>,
    /// The proofs.
    pub proofs: Vec<Bytes48>,
}

/// A sidecar with proofs for the cells of each blob.
#[derive(Debug)]
pub struct BlobTransactionSidecarEip7594 {
    /// The blobs.
    pub blobs: Vec<Blob>,
    /// The commitments to the blobs.
    pub commitments: Vec<Bytes48>,
    /// The proofs.
    pub cell_proofs: Vec<Bytes48>,
}

/// A sidecar of either kind.
#[derive(Debug)]
pub enum BlobTransactionSidecarVariant {
    /// With one proof for each blob.
    Eip4844(BlobTransactionSidecar),
    /// With proofs for the cells of each blob.
    Eip7594(BlobTransactionSidecarEip7594),
}

/// What a [`BlobTransactionSidecarVariant`] holds.
#[verifier::ext_equal]
pub struct SidecarFields {
    /// Whether the proofs are for cells.
    pub cells: bool,
    pub blobs: Seq<Blob>,
    pub commitments: Seq<Bytes48>,
    pub proofs: Seq<Bytes48>,
}

impl View for BlobTransactionSidecarVariant {
    type V = SidecarFields;

    open spec fn view(&self) -> SidecarFields {
        match self {
            BlobTransactionSidecarVariant::Eip4844(sidecar) => SidecarFields {
                cells: false,
                blobs: sidecar.blobs@,
                commitments: sidecar.commitments@,
                proofs: sidecar.proofs@,
            },
            BlobTransactionSidecarVariant::Eip7594(sidecar) => SidecarFields {
                cells: true,
                blobs: sidecar.blobs@,
                commitments: sidecar.commitments@,
                proofs: sidecar.cell_proofs@,
            },
        }
    }
}

} // verus!
