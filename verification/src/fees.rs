//! Fee arithmetic.

use vstd::prelude::*;

verus! {

/// The price that a dynamic-fee transaction pays for a unit of gas: the base fee and the tip, as
/// far as the fee cap reaches; without a base fee, the fee cap.
pub open spec fn effective_price(
    max_fee: u128,
    max_priority_fee: u128,
    base_fee: Option<u64>,
) -> int {
    match base_fee {
        None => max_fee as int,
        Some(base) => if max_priority_fee + base < max_fee {
            max_priority_fee + base
        } else {
            max_fee as int
        },
    }
}

/// `alloy_eips::eip1559::calc_effective_gas_price`: the lesser of the fee cap and of the tip cap
/// plus base fee, and the fee cap where there is no base fee.
pub assume_specification[ alloy_eips::eip1559::calc_effective_gas_price ](
    max_fee_per_gas: u128,
    max_priority_fee_per_gas: u128,
    base_fee: Option<u64>,
) -> (price: u128)
    ensures
        price == effective_price(max_fee_per_gas, max_priority_fee_per_gas, base_fee),
;

} // verus!
