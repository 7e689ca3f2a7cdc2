//! What is served over RPC: receipts and transactions.

use vstd::prelude::*;

use crate::crypto::keccak;
use crate::envelope::{EthereumTxEnvelope, TxEip4844Variant, ValueError};
use crate::laws::envelopes::{holds, law_reasons, refused_with};
use crate::primitives::{Address, TxKind, B256};
use crate::receipt::{
    blob_fee, bloom_of, build_receipt, ethereum_rpc_receipt, BlobParams, ConvertReceiptInput,
    EthApiError, EthReceiptConverter, LogEntry, Receipt, ReceiptEnvelope, ReceiptWithBloom,
    TransactionMeta, TransactionReceipt,
};
use crate::rlp::{rlp_list, RlpItem};
use crate::rpc::{RpcTransaction, TransactionInfo};
use crate::transaction::TxFields;
use crate::transaction_signed::TransactionSigned;

verus! {

/// Whether `served` is the stored receipt: it succeeded exactly where the transaction did, shows
/// the stored gas and the filter of the stored log, and its log is the stored log, entry by entry,
/// with the place of each in the chain.
pub open spec fn is_stored_receipt(
    served: ReceiptWithBloom,
    stored: Receipt,
    first: usize,
    meta: TransactionMeta,
) -> bool {
    &&& served.status <==> stored.success
    &&& served.cumulative_gas_used == stored.cumulative_gas_used
    &&& served.logs_bloom == bloom_of(
        Seq::new(
            stored.logs@.len(),
            |i: int|
                LogEntry {
                    address: stored.logs@[i].address,
                    topics: stored.logs@[i].topics@,
                    data: stored.logs@[i].data@,
                },
        ),
    )
    &&& served.logs@.len() == stored.logs@.len()
    &&& forall|i: int|
        0 <= i < served.logs@.len() ==> {
            let log = #[trigger] served.logs@[i];
            &&& log.inner.address == stored.logs@[i].address
            &&& log.inner.topics@ == stored.logs@[i].topics@
            &&& log.inner.data@ == stored.logs@[i].data@
            &&& log.block_hash == Some(meta.block_hash)
            &&& log.block_number == Some(meta.block_number)
            &&& log.block_timestamp == Some(meta.timestamp)
            &&& log.transaction_hash == Some(meta.tx_hash)
            &&& log.transaction_index == Some(meta.index)
            &&& log.log_index is Some
            &&& log.log_index->Some_0 == first + i
            &&& !log.removed
        }
}

/// An Ethereum receipt is served for every transaction but an ML-DSA transaction, wrapped as its
/// type asks, and is the stored receipt: a reverted transaction is never reported as successful.
pub proof fn law_served_receipt(
    stored: Receipt,
    first: usize,
    meta: TransactionMeta,
    result: Result<ReceiptEnvelope, EthApiError>,
)
    requires
        call_ensures(ethereum_rpc_receipt, (stored, first, meta), result),
    ensures
        result is Ok <==> !(stored.tx_type is MlDsa),
        match result {
            Ok(ReceiptEnvelope::Legacy(served)) => stored.tx_type is Legacy && is_stored_receipt(
                served,
                stored,
                first,
                meta,
            ),
            Ok(ReceiptEnvelope::Eip2930(served)) => stored.tx_type is Eip2930 && is_stored_receipt(
                served,
                stored,
                first,
                meta,
            ),
            Ok(ReceiptEnvelope::Eip1559(served)) => stored.tx_type is Eip1559 && is_stored_receipt(
                served,
                stored,
                first,
                meta,
            ),
            Ok(ReceiptEnvelope::Eip4844(served)) => stored.tx_type is Eip4844 && is_stored_receipt(
                served,
                stored,
                first,
                meta,
            ),
            Ok(ReceiptEnvelope::Eip7702(served)) => stored.tx_type is Eip7702 && is_stored_receipt(
                served,
                stored,
                first,
                meta,
            ),
            Err(EthApiError::Unsupported(words)) => words@
                == "MlDsa receipts cannot be converted to Ethereum receipt envelopes"@,
        },
{
    assert(crate::receipt::log_entries(stored.logs@) =~= Seq::new(
        stored.logs@.len(),
        |i: int|
            LogEntry {
                address: stored.logs@[i].address,
                topics: stored.logs@[i].topics@,
                data: stored.logs@[i].data@,
            },
    ));
    if let Ok(envelope) = result {
        let served = match envelope {
            ReceiptEnvelope::Legacy(served) => served,
            ReceiptEnvelope::Eip2930(served) => served,
            ReceiptEnvelope::Eip1559(served) => served,
            ReceiptEnvelope::Eip4844(served) => served,
            ReceiptEnvelope::Eip7702(served) => served,
        };
        assert forall|i: int| 0 <= i < served.logs@.len() implies (#[trigger] served.logs@[i])
            .inner@ == stored.logs@[i]@ by {}
    }
}

/// Where a transaction goes.
pub open spec fn goes_to(tx: TxFields) -> TxKind {
    match tx {
        TxFields::Legacy(tx) => tx.to,
        TxFields::Eip2930(tx) => tx.to,
        TxFields::Eip1559(tx) => tx.to,
        TxFields::Eip4844(tx) => TxKind::Call(tx.to),
        TxFields::Eip7702(tx) => TxKind::Call(tx.to),
        TxFields::MlDsa(tx) => tx.to,
    }
}

/// The nonce of a transaction.
pub open spec fn nonce_of(tx: TxFields) -> u64 {
    match tx {
        TxFields::Legacy(tx) => tx.nonce,
        TxFields::Eip2930(tx) => tx.nonce,
        TxFields::Eip1559(tx) => tx.nonce,
        TxFields::Eip4844(tx) => tx.nonce,
        TxFields::Eip7702(tx) => tx.nonce,
        TxFields::MlDsa(tx) => tx.nonce,
    }
}

/// Whether `served` tells of the transaction of `input` what a receipt has to tell beside what
/// depends on the chain, given the price of gas that it paid.
pub open spec fn tells_transaction<E>(
    served: TransactionReceipt<E>,
    input: ConvertReceiptInput,
    params: Option<BlobParams>,
    price: u128,
) -> bool {
    let tx = input.tx@.transaction;
    &&& served.transaction_hash == input.meta.tx_hash
    &&& served.transaction_index == Some(input.meta.index)
    &&& served.block_hash == Some(input.meta.block_hash)
    &&& served.block_number == Some(input.meta.block_number)
    &&& served.from == input.signer
    &&& served.gas_used == input.gas_used
    &&& served.effective_gas_price == price
    &&& goes_to(tx) matches TxKind::Call(to) ==> served.to == Some(to) && served.contract_address
        is None
    &&& goes_to(tx) is Create ==> {
        &&& served.to is None
        &&& served.contract_address is Some
        &&& served.contract_address->Some_0.bytes@ == keccak(
            rlp_list(input.signer.rlp() + nonce_of(tx).rlp()),
        ).bytes@.subrange(12, 32)
    }
    &&& served.blob_gas_used is Some <==> tx is Eip4844
    &&& tx matches TxFields::Eip4844(tx) ==> served.blob_gas_used->Some_0
        == tx.blob_versioned_hashes.len() * 131_072
    &&& served.blob_gas_price is Some <==> tx is Eip4844 && params is Some
        && input.meta.excess_blob_gas is Some
    &&& served.blob_gas_price matches Some(fee) ==> fee == blob_fee(
        params->Some_0.min_blob_fee,
        input.meta.excess_blob_gas->Some_0,
        params->Some_0.update_fraction,
    )
}

/// A receipt tells where the transaction stands, who sent it, where it went or which contract it
/// created, and what it used and paid. What depends on the chain is what the builder makes of the
/// stored receipt, and where the builder fails, its error comes out.
pub proof fn law_built_receipt<E, F: FnOnce(Receipt, usize, TransactionMeta) -> Result<
    E,
    EthApiError,
>>(
    input: ConvertReceiptInput,
    params: Option<BlobParams>,
    builder: F,
    result: Result<TransactionReceipt<E>, EthApiError>,
    price: u128,
)
    requires
        call_ensures(build_receipt::<E, F>, (input, params, builder), result),
        call_ensures(
            TransactionSigned::effective_gas_price,
            (&input.tx, input.meta.base_fee),
            price,
        ),
    ensures
        result matches Ok(served) ==> tells_transaction(served, input, params, price)
            && call_ensures(
            builder,
            (input.receipt, input.next_log_index, input.meta),
            Ok::<E, EthApiError>(served.inner),
        ),
        result matches Err(error) ==> call_ensures(
            builder,
            (input.receipt, input.next_log_index, input.meta),
            Err::<E, EthApiError>(error),
        ),
{
}

/// A blob takes 131072 units of blob gas, and only blob transactions have blobs.
pub proof fn law_blob_gas(signed: TransactionSigned, gas: Option<u64>)
    requires
        call_ensures(TransactionSigned::blob_gas_used, (&signed,), gas),
    ensures
        gas is Some <==> signed@.transaction is Eip4844,
        signed@.transaction matches TxFields::Eip4844(tx) ==> gas->Some_0
            == tx.blob_versioned_hashes.len() * 131_072,
{
}

/// All receipts are converted, in their order, each with the blob parameters of its time, or none
/// is: the error is that of the first that the builder refuses.
pub proof fn law_converted_receipts<
    E,
    ChainSpec: Fn(u64) -> Option<BlobParams>,
    Builder: Fn(Receipt, usize, TransactionMeta) -> Result<E, EthApiError>,
>(
    converter: EthReceiptConverter<ChainSpec, Builder>,
    inputs: Vec<ConvertReceiptInput>,
    result: Result<Vec<TransactionReceipt<E>>, EthApiError>,
    i: int,
    price: u128,
)
    requires
        call_ensures(
            EthReceiptConverter::<ChainSpec, Builder>::convert_receipts::<E>,
            (&converter, inputs),
            result,
        ),
        0 <= i < inputs@.len(),
        call_ensures(
            TransactionSigned::effective_gas_price,
            (&inputs@[i].tx, inputs@[i].meta.base_fee),
            price,
        ),
    ensures
        result matches Ok(served) ==> {
            &&& served@.len() == inputs@.len()
            &&& exists|params: Option<BlobParams>| #[trigger]
                call_ensures(converter.chain_spec, (inputs@[i].meta.timestamp,), params)
                    && tells_transaction(served@[i], inputs@[i], params, price)
            &&& call_ensures(
                converter.build_rpc_receipt,
                (inputs@[i].receipt, inputs@[i].next_log_index, inputs@[i].meta),
                Ok::<E, EthApiError>(served@[i].inner),
            )
        },
        result matches Err(error) ==> exists|j: int|
            {
                &&& 0 <= j < inputs@.len()
                &&& call_ensures(
                    converter.build_rpc_receipt,
                    ((#[trigger] inputs@[j]).receipt, inputs@[j].next_log_index, inputs@[j].meta),
                    Err::<E, EthApiError>(error),
                )
                &&& i < j ==> exists|inner: E| #[trigger]
                    call_ensures(
                        converter.build_rpc_receipt,
                        (inputs@[i].receipt, inputs@[i].next_log_index, inputs@[i].meta),
                        Ok::<E, EthApiError>(inner),
                    )
            },
{
    match result {
        Ok(served) => {
            assert(converter.converts(inputs@[i], served@[i]));
        },
        Err(error) => {
            let j = choose|j: int| converter.fails_at::<E>(inputs@, j, error);
            assert(converter.refuses::<E>(inputs@[j], error));
            if i < j {
                assert(converter.convertible::<E>(inputs@[i]));
                let served = choose|served: TransactionReceipt<E>|
                    converter.converts(inputs@[i], served);
                assert(call_ensures(
                    converter.build_rpc_receipt,
                    (inputs@[i].receipt, inputs@[i].next_log_index, inputs@[i].meta),
                    Ok::<E, EthApiError>(served.inner),
                ));
            }
        },
    }
}

/// Another builder changes nothing but the builder.
pub proof fn law_with_builder<ChainSpec, Builder, Other>(
    converter: EthReceiptConverter<ChainSpec, Builder>,
    builder: Other,
    changed: EthReceiptConverter<ChainSpec, Other>,
)
    requires
        call_ensures(
            EthReceiptConverter::<ChainSpec, Builder>::with_builder::<Other>,
            (converter, builder),
            changed,
        ),
    ensures
        changed.chain_spec == converter.chain_spec,
        changed.build_rpc_receipt == builder,
{
}

/// The lesser of the fee cap and of the tip cap on top of the base fee, but no less than the base
/// fee.
pub open spec fn between(max_fee: u128, tip: u128, base_fee: u64) -> int {
    if max_fee < base_fee {
        base_fee as int
    } else if base_fee + tip < max_fee {
        base_fee + tip
    } else {
        max_fee as int
    }
}

/// The price of gas with which a transaction is served.
pub open spec fn served_price(tx: TxFields, base_fee: Option<u64>) -> int {
    match (tx, base_fee) {
        (TxFields::Legacy(tx), None) => tx.gas_price as int,
        (TxFields::Eip2930(tx), None) => tx.gas_price as int,
        (TxFields::Eip1559(tx), None) => tx.max_fee_per_gas as int,
        (TxFields::Eip4844(tx), None) => tx.max_fee_per_gas as int,
        (TxFields::Eip7702(tx), None) => tx.max_fee_per_gas as int,
        (TxFields::MlDsa(tx), None) => tx.max_fee_per_gas as int,
        (TxFields::Legacy(tx), Some(base)) => between(tx.gas_price, tx.gas_price, base),
        (TxFields::Eip2930(tx), Some(base)) => between(tx.gas_price, tx.gas_price, base),
        (TxFields::Eip1559(tx), Some(base)) => between(
            tx.max_fee_per_gas,
            tx.max_priority_fee_per_gas,
            base,
        ),
        (TxFields::Eip4844(tx), Some(base)) => between(
            tx.max_fee_per_gas,
            tx.max_priority_fee_per_gas,
            base,
        ),
        (TxFields::Eip7702(tx), Some(base)) => between(
            tx.max_fee_per_gas,
            tx.max_priority_fee_per_gas,
            base,
        ),
        (TxFields::MlDsa(tx), Some(base)) => between(
            tx.max_fee_per_gas,
            tx.max_priority_fee_per_gas,
            base,
        ),
    }
}

/// Whether `served` is the signed transaction, with its sender, its place in the chain and the
/// price of gas that it pays there.
pub open spec fn serves_transaction(
    served: RpcTransaction,
    signed: TransactionSigned,
    hash: B256,
    signer: Address,
    info: TransactionInfo,
) -> bool {
    &&& served.signer == signer
    &&& served.block_hash == info.block_hash
    &&& served.block_number == info.block_number
    &&& served.transaction_index == info.index
    &&& served.block_timestamp == info.block_timestamp
    &&& served.effective_gas_price is Some
    &&& served.effective_gas_price->Some_0 == served_price(signed@.transaction, info.base_fee)
    &&& match served.inner {
        EthereumTxEnvelope::Legacy(inner) => holds(
            signed@,
            hash,
            TxFields::Legacy(inner.tx@),
            inner.signature,
            inner.hash,
        ),
        EthereumTxEnvelope::Eip2930(inner) => holds(
            signed@,
            hash,
            TxFields::Eip2930(inner.tx@),
            inner.signature,
            inner.hash,
        ),
        EthereumTxEnvelope::Eip1559(inner) => holds(
            signed@,
            hash,
            TxFields::Eip1559(inner.tx@),
            inner.signature,
            inner.hash,
        ),
        EthereumTxEnvelope::Eip4844(inner) => {
            &&& inner.tx matches TxEip4844Variant::TxEip4844(bare)
            &&& holds(
                signed@,
                hash,
                TxFields::Eip4844(bare@),
                inner.signature,
                inner.hash,
            )
        },
        EthereumTxEnvelope::Eip7702(inner) => holds(
            signed@,
            hash,
            TxFields::Eip7702(inner.tx@),
            inner.signature,
            inner.hash,
        ),
    }
}

/// Every transaction but an ML-DSA transaction is served; an ML-DSA transaction is handed back, or
/// refused in the same words.
pub proof fn law_served_transaction(
    signed: TransactionSigned,
    hash: B256,
    signer: Address,
    info: TransactionInfo,
    served: Result<RpcTransaction, ValueError<TransactionSigned>>,
    filled: Result<RpcTransaction, EthApiError>,
)
    requires
        call_ensures(TransactionSigned::hash, (&signed,), hash),
        call_ensures(RpcTransaction::from_consensus_tx, (signed, signer, info), served),
        call_ensures(RpcTransaction::fill, (signed, signer, info), filled),
    ensures
        served is Ok <==> !(signed@.transaction is MlDsa),
        filled is Ok <==> !(signed@.transaction is MlDsa),
        served matches Ok(served) ==> serves_transaction(served, signed, hash, signer, info),
        filled matches Ok(served) ==> serves_transaction(served, signed, hash, signer, info),
        served matches Err(error) ==> refused_with(
            error,
            signed@,
            hash,
            "ML-DSA transactions are not representable as Ethereum transaction envelopes"@,
        ),
        filled matches Err(EthApiError::Unsupported(words)) ==> words@
            == "ML-DSA transactions are not representable as Ethereum transaction envelopes"@,
{
    law_reasons();
}

/// What is read back of a served transaction is the transaction that was served.
pub proof fn law_served_transaction_is_read_back(
    signed: TransactionSigned,
    hash: B256,
    signer: Address,
    info: TransactionInfo,
    served: RpcTransaction,
    back: TransactionSigned,
    read: B256,
)
    requires
        call_ensures(TransactionSigned::hash, (&signed,), hash),
        call_ensures(
            RpcTransaction::from_consensus_tx,
            (signed, signer, info),
            Ok::<RpcTransaction, ValueError<TransactionSigned>>(served),
        ),
        call_ensures(<TransactionSigned as From<RpcTransaction>>::from, (served,), back),
        call_ensures(TransactionSigned::hash, (&back,), read),
    ensures
        back@.transaction == signed@.transaction,
        back@.signature == signed@.signature,
        read == hash,
{
}

/// Nothing is known of the place of a transaction to begin with.
pub proof fn law_no_place(
    info: TransactionInfo,
)
    requires
        call_ensures(<TransactionInfo as Default>::default, (), info),
    ensures
        info.hash is None,
        info.index is None,
        info.block_hash is None,
        info.block_number is None,
        info.base_fee is None,
        info.block_timestamp is None,
{
}

} // verus!
