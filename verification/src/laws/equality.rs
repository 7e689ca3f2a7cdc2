//! When transactions of Ethereum's own types are equal.

use vstd::prelude::*;

use crate::primitives::{AccessListItem, SignedAuthorization};
use crate::tx_ecdsa::{TxEip1559, TxEip2930, TxEip4844, TxEip7702, TxLegacy};

verus! {

/// Whether two legacy transactions hold the same.
pub open spec fn same_legacy(a: TxLegacy, b: TxLegacy) -> bool {
    &&& a.chain_id == b.chain_id
    &&& a.nonce == b.nonce
    &&& a.gas_price == b.gas_price
    &&& a.gas_limit == b.gas_limit
    &&& a.to == b.to
    &&& a.value == b.value
    &&& a.input@ == b.input@
}

/// Legacy transactions are equal exactly where they hold the same, and a copy holds the same.
pub proof fn law_legacy_equality(
    a: TxLegacy,
    b: TxLegacy,
    equal: bool,
    copy: TxLegacy,
)
    requires
        call_ensures(<TxLegacy as PartialEq>::eq, (&a, &b), equal),
        call_ensures(<TxLegacy as Clone>::clone, (&a,), copy),
    ensures
        equal == same_legacy(a, b),
        same_legacy(copy, a),
{
    if same_legacy(a, b) {
        assert(a@ =~= b@);
    }
}

/// Whether two EIP-2930 transactions hold the same.
pub open spec fn same_eip2930(a: TxEip2930, b: TxEip2930) -> bool {
    &&& a.chain_id == b.chain_id
    &&& a.nonce == b.nonce
    &&& a.gas_price == b.gas_price
    &&& a.gas_limit == b.gas_limit
    &&& a.to == b.to
    &&& a.value == b.value
    &&& a.access_list@ == b.access_list@
    &&& a.input@ == b.input@
}

/// EIP-2930 transactions are equal exactly where they hold the same, and a copy holds the same.
pub proof fn law_eip2930_equality(
    a: TxEip2930,
    b: TxEip2930,
    equal: bool,
    copy: TxEip2930,
)
    requires
        call_ensures(<TxEip2930 as PartialEq>::eq, (&a, &b), equal),
        call_ensures(<TxEip2930 as Clone>::clone, (&a,), copy),
    ensures
        equal == same_eip2930(a, b),
        same_eip2930(copy, a),
{
    if same_eip2930(a, b) {
        assert(a@ =~= b@);
    }
}

/// Whether two EIP-1559 transactions hold the same.
pub open spec fn same_eip1559(a: TxEip1559, b: TxEip1559) -> bool {
    &&& a.chain_id == b.chain_id
    &&& a.nonce == b.nonce
    &&& a.gas_limit == b.gas_limit
    &&& a.max_fee_per_gas == b.max_fee_per_gas
    &&& a.max_priority_fee_per_gas == b.max_priority_fee_per_gas
    &&& a.to == b.to
    &&& a.value == b.value
    &&& a.access_list@ == b.access_list@
    &&& a.input@ == b.input@
}

/// EIP-1559 transactions are equal exactly where they hold the same, and a copy holds the same.
pub proof fn law_eip1559_equality(
    a: TxEip1559,
    b: TxEip1559,
    equal: bool,
    copy: TxEip1559,
)
    requires
        call_ensures(<TxEip1559 as PartialEq>::eq, (&a, &b), equal),
        call_ensures(<TxEip1559 as Clone>::clone, (&a,), copy),
    ensures
        equal == same_eip1559(a, b),
        same_eip1559(copy, a),
{
    if same_eip1559(a, b) {
        assert(a@ =~= b@);
    }
}

/// Whether two EIP-4844 transactions hold the same.
pub open spec fn same_eip4844(a: TxEip4844, b: TxEip4844) -> bool {
    &&& a.chain_id == b.chain_id
    &&& a.nonce == b.nonce
    &&& a.gas_limit == b.gas_limit
    &&& a.max_fee_per_gas == b.max_fee_per_gas
    &&& a.max_priority_fee_per_gas == b.max_priority_fee_per_gas
    &&& a.to == b.to
    &&& a.value == b.value
    &&& a.access_list@ == b.access_list@
    &&& a.blob_versioned_hashes@ == b.blob_versioned_hashes@
    &&& a.max_fee_per_blob_gas == b.max_fee_per_blob_gas
    &&& a.input@ == b.input@
}

/// EIP-4844 transactions are equal exactly where they hold the same, and a copy holds the same.
pub proof fn law_eip4844_equality(
    a: TxEip4844,
    b: TxEip4844,
    equal: bool,
    copy: TxEip4844,
)
    requires
        call_ensures(<TxEip4844 as PartialEq>::eq, (&a, &b), equal),
        call_ensures(<TxEip4844 as Clone>::clone, (&a,), copy),
    ensures
        equal == same_eip4844(a, b),
        same_eip4844(copy, a),
{
    if same_eip4844(a, b) {
        assert(a@ =~= b@);
    }
}

/// Whether two EIP-7702 transactions hold the same.
pub open spec fn same_eip7702(a: TxEip7702, b: TxEip7702) -> bool {
    &&& a.chain_id == b.chain_id
    &&& a.nonce == b.nonce
    &&& a.gas_limit == b.gas_limit
    &&& a.max_fee_per_gas == b.max_fee_per_gas
    &&& a.max_priority_fee_per_gas == b.max_priority_fee_per_gas
    &&& a.to == b.to
    &&& a.value == b.value
    &&& a.access_list@ == b.access_list@
    &&& a.authorization_list@ == b.authorization_list@
    &&& a.input@ == b.input@
}

/// EIP-7702 transactions are equal exactly where they hold the same, and a copy holds the same.
pub proof fn law_eip7702_equality(
    a: TxEip7702,
    b: TxEip7702,
    equal: bool,
    copy: TxEip7702,
)
    requires
        call_ensures(<TxEip7702 as PartialEq>::eq, (&a, &b), equal),
        call_ensures(<TxEip7702 as Clone>::clone, (&a,), copy),
    ensures
        equal == same_eip7702(a, b),
        same_eip7702(copy, a),
{
    if same_eip7702(a, b) {
        assert(a@ =~= b@);
    }
}

/// Entries of access lists are equal exactly where address and keys are, and a copy is equal.
pub proof fn law_entry_equality(
    a: AccessListItem,
    b: AccessListItem,
    equal: bool,
    copy: AccessListItem,
)
    requires
        call_ensures(<AccessListItem as PartialEq>::eq, (&a, &b), equal),
        call_ensures(<AccessListItem as Clone>::clone, (&a,), copy),
    ensures
        equal == (a.address == b.address && a.storage_keys@ == b.storage_keys@),
        copy.address == a.address,
        copy.storage_keys@ == a.storage_keys@,
{
    if a.storage_keys@ == b.storage_keys@ && a.address == b.address {
        assert(a@ =~= b@);
    }
}

/// Authorizations are equal exactly where all that is signed, and the signature, is.
pub proof fn law_authorization_equality(
    a: SignedAuthorization,
    b: SignedAuthorization,
    equal: bool,
)
    requires
        call_ensures(<SignedAuthorization as PartialEq>::eq, (&a, &b), equal),
    ensures
        equal == (a == b),
{
}

} // verus!
