//! A transaction together with its signature and hash.

use vstd::prelude::*;

use crate::primitives::{Signature, B256};

verus! {

/// A transaction with its signature and its hash.
#[derive(Clone, Debug, PartialEq, Eq, Hash)]
pub struct Signed<T> {
    pub tx: T,
    pub signature: Signature,
    pub hash: B256,
}

impl<T> Signed<T> {
    /// Puts the parts together, with the hash as given.
    pub fn new_unchecked(tx: T, signature: Signature, hash: B256) -> (signed: Self)
        ensures
            signed == (Signed { tx, signature, hash }),
    {
        Signed { tx, signature, hash }
    }

    /// Splits into transaction, signature and hash.
    pub fn into_parts(self) -> (parts: (T, Signature, B256))
        ensures
            parts == (self.tx, self.signature, self.hash),
    {
        (self.tx, self.signature, self.hash)
    }
}

} // verus!
