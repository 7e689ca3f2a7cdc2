//! What transactions pay for gas.

use vstd::prelude::*;

use crate::transaction::Transaction;
use crate::transaction_signed::TransactionSigned;
use crate::tx_ml_dsa::TxMlDsa;

verus! {

/// Where the gas price is fixed, it is paid whatever the base fee.
pub proof fn law_fixed_price_is_paid(tx: Transaction, base_fee: Option<u64>, price: u128)
    requires
        call_ensures(Transaction::effective_gas_price, (&tx, base_fee), price),
    ensures
        tx matches Transaction::Legacy(tx) ==> price == tx.gas_price,
        tx matches Transaction::Eip2930(tx) ==> price == tx.gas_price,
{
}

/// The lesser of the fee cap and of the tip cap on top of the base fee.
pub open spec fn capped(max_fee: u128, tip: u128, base_fee: u64) -> int {
    if base_fee + tip < max_fee {
        base_fee + tip
    } else {
        max_fee as int
    }
}

/// Where fees are dynamic, the lesser of the fee cap and of the tip cap on top of the base fee is
/// paid.
pub proof fn law_dynamic_price_is_capped(tx: Transaction, base_fee: u64, price: u128)
    requires
        call_ensures(Transaction::effective_gas_price, (&tx, Some(base_fee)), price),
    ensures
        tx matches Transaction::Eip1559(tx) ==> price == capped(
            tx.max_fee_per_gas,
            tx.max_priority_fee_per_gas,
            base_fee,
        ),
        tx matches Transaction::Eip4844(tx) ==> price == capped(
            tx.max_fee_per_gas,
            tx.max_priority_fee_per_gas,
            base_fee,
        ),
        tx matches Transaction::Eip7702(tx) ==> price == capped(
            tx.max_fee_per_gas,
            tx.max_priority_fee_per_gas,
            base_fee,
        ),
        tx matches Transaction::MlDsa(tx) ==> price == capped(
            tx.max_fee_per_gas,
            tx.max_priority_fee_per_gas,
            base_fee,
        ),
{
}

/// Nothing above the fee cap is ever paid, and while the base fee is below the cap, no more than
/// the tip cap on top of it, and no less than it.
pub proof fn law_dynamic_price_is_bounded(tx: Transaction, base_fee: u64, price: u128)
    requires
        call_ensures(Transaction::effective_gas_price, (&tx, Some(base_fee)), price),
    ensures
        tx matches Transaction::Eip1559(tx) ==> {
            &&& price <= tx.max_fee_per_gas
            &&& base_fee <= tx.max_fee_per_gas ==> base_fee <= price <= base_fee
                + tx.max_priority_fee_per_gas
            &&& base_fee + tx.max_priority_fee_per_gas >= tx.max_fee_per_gas ==> price
                == tx.max_fee_per_gas
            &&& base_fee + tx.max_priority_fee_per_gas <= tx.max_fee_per_gas ==> price == base_fee
                + tx.max_priority_fee_per_gas
        },
        tx matches Transaction::Eip4844(tx) ==> {
            &&& price <= tx.max_fee_per_gas
            &&& base_fee <= tx.max_fee_per_gas ==> base_fee <= price <= base_fee
                + tx.max_priority_fee_per_gas
            &&& base_fee + tx.max_priority_fee_per_gas >= tx.max_fee_per_gas ==> price
                == tx.max_fee_per_gas
            &&& base_fee + tx.max_priority_fee_per_gas <= tx.max_fee_per_gas ==> price == base_fee
                + tx.max_priority_fee_per_gas
        },
        tx matches Transaction::Eip7702(tx) ==> {
            &&& price <= tx.max_fee_per_gas
            &&& base_fee <= tx.max_fee_per_gas ==> base_fee <= price <= base_fee
                + tx.max_priority_fee_per_gas
            &&& base_fee + tx.max_priority_fee_per_gas >= tx.max_fee_per_gas ==> price
                == tx.max_fee_per_gas
            &&& base_fee + tx.max_priority_fee_per_gas <= tx.max_fee_per_gas ==> price == base_fee
                + tx.max_priority_fee_per_gas
        },
        tx matches Transaction::MlDsa(tx) ==> {
            &&& price <= tx.max_fee_per_gas
            &&& base_fee <= tx.max_fee_per_gas ==> base_fee <= price <= base_fee
                + tx.max_priority_fee_per_gas
            &&& base_fee + tx.max_priority_fee_per_gas >= tx.max_fee_per_gas ==> price
                == tx.max_fee_per_gas
            &&& base_fee + tx.max_priority_fee_per_gas <= tx.max_fee_per_gas ==> price == base_fee
                + tx.max_priority_fee_per_gas
        },
{
}

/// Without a base fee, the fee cap is paid.
pub proof fn law_price_without_base_fee(tx: Transaction, price: u128)
    requires
        call_ensures(Transaction::effective_gas_price, (&tx, None), price),
    ensures
        match tx {
            Transaction::Legacy(tx) => price == tx.gas_price,
            Transaction::Eip2930(tx) => price == tx.gas_price,
            Transaction::Eip1559(tx) => price == tx.max_fee_per_gas,
            Transaction::Eip4844(tx) => price == tx.max_fee_per_gas,
            Transaction::Eip7702(tx) => price == tx.max_fee_per_gas,
            Transaction::MlDsa(tx) => price == tx.max_fee_per_gas,
        },
{
}

/// A higher base fee never makes gas cheaper.
pub proof fn law_price_grows_with_base_fee(tx: Transaction, low: u64, high: u64, a: u128, b: u128)
    requires
        low <= high,
        call_ensures(Transaction::effective_gas_price, (&tx, Some(low)), a),
        call_ensures(Transaction::effective_gas_price, (&tx, Some(high)), b),
    ensures
        a <= b,
{
}

/// A signed transaction pays what the transaction in it pays.
pub proof fn law_signed_price(
    signed: TransactionSigned,
    tx: Transaction,
    base_fee: Option<u64>,
    a: u128,
    b: u128,
)
    requires
        signed@.transaction == tx@,
        call_ensures(TransactionSigned::effective_gas_price, (&signed, base_fee), a),
        call_ensures(Transaction::effective_gas_price, (&tx, base_fee), b),
    ensures
        a == b,
{
}

/// An ML-DSA transaction by itself pays the lesser of the fee cap and of the tip cap on top of the
/// base fee, and the fee cap where there is no base fee.
pub proof fn law_ml_dsa_price(tx: TxMlDsa, base_fee: Option<u64>, price: u128)
    requires
        call_ensures(TxMlDsa::effective_gas_price, (&tx, base_fee), price),
    ensures
        base_fee is None ==> price == tx.max_fee_per_gas,
        base_fee matches Some(base) ==> price == capped(
            tx.max_fee_per_gas,
            tx.max_priority_fee_per_gas,
            base,
        ),
{
}

} // verus!
