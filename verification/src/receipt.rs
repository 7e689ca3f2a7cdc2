//! Receipts as they are served over RPC.

use vstd::prelude::*;

use crate::crypto::keccak;
use crate::primitives::{Address, Bytes, TxHash, TxKind, B256};
use crate::rlp::{rlp_list, RlpItem};
use crate::transaction::TxFields;
use crate::transaction_signed::TransactionSigned;
use crate::tx_type::DiesisTxType;

verus! {

/// Gas that each blob takes.
pub const DATA_GAS_PER_BLOB: u64 = 131_072;

/// Reason given where the receipt of an ML-DSA transaction is asked for as an Ethereum receipt.
pub const ML_DSA_RECEIPT_UNSUPPORTED: &'static str =
    "MlDsa receipts cannot be converted to Ethereum receipt envelopes";

/// Why a receipt could not be served.
#[derive(Clone, Copy, Debug, PartialEq, Eq)]
pub enum EthApiError {
    /// The receipt cannot be represented.
    Unsupported(&'static str),
}

/// What an event put into the log.
#[derive(Debug)]
pub struct Log {
    /// The contract.
    pub address: Address,
    /// The indexed topics.
    pub topics: Vec<B256>,
    /// The data.
    pub data: Bytes,
}

/// What a [`Log`] holds.
#[verifier::ext_equal]
pub struct LogEntry {
    pub address: Address,
    pub topics: Seq<B256>,
    pub data: Seq<u8>,
}

impl View for Log {
    type V = LogEntry;

    open spec fn view(&self) -> LogEntry {
        LogEntry { address: self.address, topics: self.topics@, data: self.data@ }
    }
}

/// The entries of a log.
pub open spec fn log_entries(logs: Seq<Log>) -> Seq<LogEntry> {
    logs.map_values(|log: Log| log@)
}

/// A receipt as it is stored.
#[derive(Debug)]
pub struct Receipt {
    /// Type of the transaction.
    pub tx_type: DiesisTxType,
    /// Whether the transaction succeeded.
    pub success: bool,
    /// Gas used in the block up to and with the transaction.
    pub cumulative_gas_used: u64,
    /// What the transaction logged.
    pub logs: Vec<Log>,
}

/// Where a transaction stands in the chain.
#[derive(Clone, Copy, Debug)]
pub struct TransactionMeta {
    pub tx_hash: TxHash,
    pub index: u64,
    pub block_hash: B256,
    pub block_number: u64,
    pub base_fee: Option<u64>,
    pub excess_blob_gas: Option<u64>,
    pub timestamp: u64,
}

/// A log entry with its place in the chain.
#[derive(Debug)]
pub struct RpcLog {
    pub inner: Log,
    pub block_hash: Option<B256>,
    pub block_number: Option<u64>,
    pub block_timestamp: Option<u64>,
    pub transaction_hash: Option<B256>,
    pub transaction_index: Option<u64>,
    pub log_index: Option<u64>,
    pub removed: bool,
}

/// A 2048-bit filter of what is in a log.
#[derive(Clone, Copy, Debug)]
pub struct Bloom {
    pub bytes: [u8; 256],
}

/// A receipt with the filter of its log.
#[derive(Debug)]
pub struct ReceiptWithBloom {
    pub status: bool,
    pub cumulative_gas_used: u64,
    pub logs: Vec<RpcLog>,
    pub logs_bloom: Bloom,
}

/// A receipt of a transaction of one of Ethereum's own types.
#[derive(Debug)]
pub enum ReceiptEnvelope {
    Legacy(ReceiptWithBloom),
    Eip2930(ReceiptWithBloom),
    Eip1559(ReceiptWithBloom),
    Eip4844(ReceiptWithBloom),
    Eip7702(ReceiptWithBloom),
}

/// The filter of a log.
pub uninterp spec fn bloom_of(logs: Seq<LogEntry>) -> Bloom;

/// `alloy_primitives::logs_bloom`: the filter of the addresses and topics of the entries.
#[verifier::external_body]
fn logs_bloom(logs: &Vec<Log>) -> (bloom: Bloom)
    ensures
        bloom == bloom_of(log_entries(logs@)),
{
    let logs: Vec<alloy_primitives::Log> = logs.iter().map(
        |log| alloy_primitives::Log::new_unchecked(
            alloy_primitives::Address::from(log.address.bytes),
            log.topics.iter().map(|topic| alloy_primitives::B256::from(topic.bytes)).collect(),
            alloy_primitives::Bytes::copy_from_slice(&log.data),
        ),
    ).collect();
    Bloom { bytes: alloy_primitives::logs_bloom(logs.iter()).0.0 }
}

/// The entry number `i` of a transaction's log, as it is served: its place in the log of the block
/// counts on from that of the transaction's first entry.
pub open spec fn rpc_log_of(
    log: RpcLog,
    entry: LogEntry,
    index: int,
    meta: TransactionMeta,
) -> bool {
    &&& log.inner@ == entry
    &&& log.block_hash == Some(meta.block_hash)
    &&& log.block_number == Some(meta.block_number)
    &&& log.block_timestamp == Some(meta.timestamp)
    &&& log.transaction_hash == Some(meta.tx_hash)
    &&& log.transaction_index == Some(meta.index)
    &&& log.log_index is Some
    &&& log.log_index->Some_0 == index
    &&& !log.removed
}

/// Whether `served` is the stored receipt `receipt` with its log put in its place.
pub open spec fn rpc_receipt_of(
    served: ReceiptWithBloom,
    receipt: Receipt,
    next_log_index: usize,
    meta: TransactionMeta,
) -> bool {
    &&& served.status == receipt.success
    &&& served.cumulative_gas_used == receipt.cumulative_gas_used
    &&& served.logs_bloom == bloom_of(log_entries(receipt.logs@))
    &&& served.logs@.len() == receipt.logs@.len()
    &&& forall|i: int|
        0 <= i < served.logs@.len() ==> rpc_log_of(
            #[trigger] served.logs@[i],
            receipt.logs@[i]@,
            next_log_index + i,
            meta,
        )
}

/// Whether `result` is what Ethereum serves for the stored receipt: the receipt with its log put in
/// its place, wrapped as the type of the transaction asks, and an error for ML-DSA transactions.
pub open spec fn is_ethereum_receipt(
    result: Result<ReceiptEnvelope, EthApiError>,
    receipt: Receipt,
    next_log_index: usize,
    meta: TransactionMeta,
) -> bool {
    match receipt.tx_type {
        DiesisTxType::Legacy => result matches Ok(ReceiptEnvelope::Legacy(served))
            && rpc_receipt_of(served, receipt, next_log_index, meta),
        DiesisTxType::Eip2930 => result matches Ok(ReceiptEnvelope::Eip2930(served))
            && rpc_receipt_of(served, receipt, next_log_index, meta),
        DiesisTxType::Eip1559 => result matches Ok(ReceiptEnvelope::Eip1559(served))
            && rpc_receipt_of(served, receipt, next_log_index, meta),
        DiesisTxType::Eip4844 => result matches Ok(ReceiptEnvelope::Eip4844(served))
            && rpc_receipt_of(served, receipt, next_log_index, meta),
        DiesisTxType::Eip7702 => result matches Ok(ReceiptEnvelope::Eip7702(served))
            && rpc_receipt_of(served, receipt, next_log_index, meta),
        DiesisTxType::MlDsa => result == Err::<ReceiptEnvelope, EthApiError>(
            EthApiError::Unsupported(ML_DSA_RECEIPT_UNSUPPORTED),
        ),
    }
}

/// Puts the log of a receipt in its place in the chain and wraps the receipt as its type asks.
/// There is no Ethereum receipt for an ML-DSA transaction.
pub fn ethereum_rpc_receipt(
    receipt: Receipt,
    next_log_index: usize,
    meta: TransactionMeta,
) -> (result: Result<ReceiptEnvelope, EthApiError>)
    requires
        next_log_index + receipt.logs@.len() <= usize::MAX,
    ensures
        is_ethereum_receipt(result, receipt, next_log_index, meta),
{
    let tx_type = receipt.tx_type;
    let bloom = logs_bloom(&receipt.logs);
    let ghost entries = receipt.logs@;
    let mut logs: Vec<RpcLog> = Vec::with_capacity(receipt.logs.len());
    let mut log_index: usize = next_log_index;
    for log in it: receipt.logs
        invariant
            it.seq() == entries,
            logs@.len() == it.index(),
            log_index == next_log_index + it.index(),
            next_log_index + entries.len() <= usize::MAX,
            forall|i: int|
                0 <= i < logs@.len() ==> rpc_log_of(
                    #[trigger] logs@[i],
                    entries[i]@,
                    next_log_index + i,
                    meta,
                ),
    {
        let idx: usize = log_index;
        log_index += 1;
        logs.push(
            RpcLog {
                inner: log,
                block_hash: Some(meta.block_hash),
                block_number: Some(meta.block_number),
                block_timestamp: Some(meta.timestamp),
                transaction_hash: Some(meta.tx_hash),
                transaction_index: Some(meta.index),
                log_index: Some(idx as u64),
                removed: false,
            },
        );
    }
    let served = ReceiptWithBloom {
        status: receipt.success,
        cumulative_gas_used: receipt.cumulative_gas_used,
        logs,
        logs_bloom: bloom,
    };
    match tx_type {
        DiesisTxType::Legacy => Ok(ReceiptEnvelope::Legacy(served)),
        DiesisTxType::Eip2930 => Ok(ReceiptEnvelope::Eip2930(served)),
        DiesisTxType::Eip1559 => Ok(ReceiptEnvelope::Eip1559(served)),
        DiesisTxType::Eip4844 => Ok(ReceiptEnvelope::Eip4844(served)),
        DiesisTxType::Eip7702 => Ok(ReceiptEnvelope::Eip7702(served)),
        DiesisTxType::MlDsa => Err(EthApiError::Unsupported(ML_DSA_RECEIPT_UNSUPPORTED)),
    }
}

/// Blob parameters of a fork.
#[derive(Clone, Copy, Debug, PartialEq, Eq)]
pub struct BlobParams {
    /// Target blob count for the block.
    pub target_blob_count: u64,
    /// Max blob count for the block.
    pub max_blob_count: u64,
    /// Update fraction for excess blob gas calculation.
    pub update_fraction: u128,
    /// Minimum gas price for a data blob.
    pub min_blob_fee: u128,
    /// Maximum number of blobs per transaction.
    pub max_blobs_per_tx: u64,
    /// Minimum execution gas required to include a blob in a block.
    pub blob_base_cost: u64,
}

/// The blob fee that `min_blob_fee` grows to under the given excess of blob gas.
pub uninterp spec fn blob_fee(
    min_blob_fee: u128,
    excess_blob_gas: u64,
    update_fraction: u128,
) -> u128;

/// `alloy_eips::eip7840::BlobParams::calc_blob_fee`: the blob fee of a block, which depends on the
/// excess of blob gas, the minimum fee and the update fraction alone.
#[verifier::external_body]
fn calc_blob_fee(params: &BlobParams, excess_blob_gas: u64) -> (fee: u128)
    requires
        params.update_fraction != 0,
    ensures
        fee == blob_fee(params.min_blob_fee, excess_blob_gas, params.update_fraction),
{
    alloy_eips::eip7840::BlobParams {
        target_blob_count: params.target_blob_count,
        max_blob_count: params.max_blob_count,
        update_fraction: params.update_fraction,
        min_blob_fee: params.min_blob_fee,
        max_blobs_per_tx: params.max_blobs_per_tx,
        blob_base_cost: params.blob_base_cost,
    }.calc_blob_fee(excess_blob_gas)
}

/// Whether `contract` is the address of the contract that the account `creator` creates with the
/// given nonce: the last twenty bytes of the hash of the list of both.
pub open spec fn is_created_address(contract: Address, creator: Address, nonce: u64) -> bool {
    contract.bytes@ == keccak(rlp_list(creator.rlp() + nonce.rlp())).bytes@.subrange(12, 32)
}

/// `alloy_primitives::Address::create`: the address of the contract that the account creates with
/// the given nonce.
#[verifier::external_body]
fn create_address(creator: Address, nonce: u64) -> (contract: Address)
    ensures
        is_created_address(contract, creator, nonce),
{
    Address { bytes: alloy_primitives::Address::from(creator.bytes).create(nonce).into() }
}

/// A signed transaction, its sender and its stored receipt.
#[derive(Debug)]
pub struct ConvertReceiptInput {
    /// The transaction.
    pub tx: TransactionSigned,
    /// Its sender.
    pub signer: Address,
    /// Its place in the chain.
    pub meta: TransactionMeta,
    /// Its receipt.
    pub receipt: Receipt,
    /// Gas that it used.
    pub gas_used: u64,
    /// Place of its first log entry in the log of the block.
    pub next_log_index: usize,
}

/// A receipt as it is served, with `E` for what depends on the chain.
#[derive(Debug)]
pub struct TransactionReceipt<E> {
    pub inner: E,
    pub transaction_hash: TxHash,
    pub transaction_index: Option<u64>,
    pub block_hash: Option<B256>,
    pub block_number: Option<u64>,
    pub from: Address,
    pub to: Option<Address>,
    pub gas_used: u64,
    pub contract_address: Option<Address>,
    pub effective_gas_price: u128,
    pub blob_gas_price: Option<u128>,
    pub blob_gas_used: Option<u64>,
}

impl TransactionSigned {
    /// Gas that the blobs of a blob transaction take.
    pub fn blob_gas_used(&self) -> (gas: Option<u64>)
        requires
            self@.transaction matches TxFields::Eip4844(tx) ==> tx.blob_versioned_hashes.len()
                * DATA_GAS_PER_BLOB <= u64::MAX,
        ensures
            gas is Some <==> self@.transaction is Eip4844,
            self@.transaction matches TxFields::Eip4844(tx) ==> gas->Some_0
                == tx.blob_versioned_hashes.len() * DATA_GAS_PER_BLOB,
    {
        match self.blob_versioned_hashes() {
            Some(hashes) => Some(hashes.len() as u64 * DATA_GAS_PER_BLOB),
            None => None,
        }
    }
}

impl ConvertReceiptInput {
    /// Whether a receipt can be built: the gas of the blobs fits its type, and the blob fee, where
    /// one is asked for, has an update fraction.
    pub open spec fn buildable(self, blob_params: Option<BlobParams>) -> bool {
        &&& self.tx@.transaction matches TxFields::Eip4844(tx) ==> tx.blob_versioned_hashes.len()
            * DATA_GAS_PER_BLOB <= u64::MAX
        &&& self.tx@.transaction is Eip4844 && blob_params is Some && self.meta.excess_blob_gas
            is Some ==> blob_params->Some_0.update_fraction != 0
    }

    /// The blob fee of a blob transaction, where the parameters and the excess are known.
    pub open spec fn blob_gas_price(self, blob_params: Option<BlobParams>) -> Option<u128> {
        match (self.tx@.transaction, blob_params, self.meta.excess_blob_gas) {
            (TxFields::Eip4844(_), Some(params), Some(excess)) => Some(
                blob_fee(params.min_blob_fee, excess, params.update_fraction),
            ),
            _ => None,
        }
    }
}

/// Whether `served` is the receipt for `input`, apart from what depends on the chain.
pub open spec fn receipt_frame<E>(
    served: TransactionReceipt<E>,
    input: ConvertReceiptInput,
    blob_params: Option<BlobParams>,
) -> bool {
    let tx = input.tx@.transaction;
    let meta = input.meta;
    &&& served.transaction_hash == meta.tx_hash
    &&& served.transaction_index == Some(meta.index)
    &&& served.block_hash == Some(meta.block_hash)
    &&& served.block_number == Some(meta.block_number)
    &&& served.from == input.signer
    &&& served.gas_used == input.gas_used
    &&& match tx.kind() {
        TxKind::Create => {
            &&& served.to is None
            &&& served.contract_address is Some
            &&& is_created_address(served.contract_address->Some_0, input.signer, tx.nonce())
        },
        TxKind::Call(to) => served.to == Some(to) && served.contract_address is None,
    }
    &&& served.effective_gas_price == tx.effective_gas_price(meta.base_fee)
    &&& served.blob_gas_price == input.blob_gas_price(blob_params)
    &&& match tx {
        TxFields::Eip4844(tx) => served.blob_gas_used is Some && served.blob_gas_used->Some_0
            == tx.blob_versioned_hashes.len() * DATA_GAS_PER_BLOB,
        _ => served.blob_gas_used is None,
    }
}

/// Builds a receipt, obtaining what depends on the chain from the given function. Where the
/// function fails, so does the building, with the same error.
pub fn build_receipt<E, F>(
    input: ConvertReceiptInput,
    blob_params: Option<BlobParams>,
    build_rpc_receipt: F,
) -> (result: Result<TransactionReceipt<E>, EthApiError>)
    where F: FnOnce(Receipt, usize, TransactionMeta) -> Result<E, EthApiError>,
    requires
        input.buildable(blob_params),
        call_requires(build_rpc_receipt, (input.receipt, input.next_log_index, input.meta)),
    ensures
        match result {
            Ok(served) => receipt_frame(served, input, blob_params) && call_ensures(
                build_rpc_receipt,
                (input.receipt, input.next_log_index, input.meta),
                Ok::<E, EthApiError>(served.inner),
            ),
            Err(error) => call_ensures(
                build_rpc_receipt,
                (input.receipt, input.next_log_index, input.meta),
                Err::<E, EthApiError>(error),
            ),
        },
{
    let ConvertReceiptInput { tx, signer: from, meta, receipt, gas_used, next_log_index } = input;
    let blob_gas_used: Option<u64> = tx.blob_gas_used();
    // Blob gas price should only be present if the transaction is a blob transaction.
    let blob_gas_price: Option<u128> = match (blob_gas_used, blob_params, meta.excess_blob_gas) {
        (Some(_), Some(params), Some(excess)) => Some(calc_blob_fee(&params, excess)),
        _ => None,
    };
    let (contract_address, to) = match tx.kind() {
        TxKind::Create => (Some(create_address(from, tx.nonce())), None),
        TxKind::Call(to) => (None, Some(to)),
    };
    let effective_gas_price: u128 = tx.effective_gas_price(meta.base_fee);
    match build_rpc_receipt(receipt, next_log_index, meta) {
        Ok(inner) => Ok(
            TransactionReceipt {
                inner,
                transaction_hash: meta.tx_hash,
                transaction_index: Some(meta.index),
                block_hash: Some(meta.block_hash),
                block_number: Some(meta.block_number),
                from,
                to,
                gas_used,
                contract_address,
                effective_gas_price,
                blob_gas_price,
                blob_gas_used,
            },
        ),
        Err(error) => Err(error),
    }
}

/// Converter for Ethereum receipts. `ChainSpec` gives the blob parameters in force at a time,
/// `Builder` what depends on the chain of a receipt.
#[derive(Clone, Debug)]
pub struct EthReceiptConverter<ChainSpec, Builder = ()> {
    pub chain_spec: ChainSpec,
    pub build_rpc_receipt: Builder,
}

impl<ChainSpec> EthReceiptConverter<ChainSpec> {
    /// Creates a new converter with the given chain spec, for Ethereum's own receipts.
    pub fn new(chain_spec: ChainSpec) -> (converter: EthReceiptConverter<
        ChainSpec,
        impl Fn(Receipt, usize, TransactionMeta) -> Result<ReceiptEnvelope, EthApiError>,
    >)
        ensures
            converter.chain_spec == chain_spec,
            forall|receipt: Receipt, next_log_index: usize, meta: TransactionMeta|
                next_log_index + receipt.logs@.len() <= usize::MAX ==> #[trigger] call_requires(
                    converter.build_rpc_receipt,
                    (receipt, next_log_index, meta),
                ),
            forall|
                receipt: Receipt,
                next_log_index: usize,
                meta: TransactionMeta,
                result: Result<ReceiptEnvelope, EthApiError>,
            | #[trigger]
                call_ensures(
                    converter.build_rpc_receipt,
                    (receipt, next_log_index, meta),
                    result,
                ) ==> is_ethereum_receipt(result, receipt, next_log_index, meta),
    {
        EthReceiptConverter { chain_spec, build_rpc_receipt: ethereum_rpc_receipt }
    }
}

impl<ChainSpec, Builder> EthReceiptConverter<ChainSpec, Builder> {
    /// Sets new builder for the converter.
    pub fn with_builder<NewBuilder>(
        self,
        build_rpc_receipt: NewBuilder,
    ) -> (converter: EthReceiptConverter<ChainSpec, NewBuilder>)
        ensures
            converter.chain_spec == self.chain_spec,
            converter.build_rpc_receipt == build_rpc_receipt,
    {
        EthReceiptConverter { chain_spec: self.chain_spec, build_rpc_receipt }
    }

    /// Whether `served` is a receipt that this converter makes of `input`.
    pub open spec fn converts<E>(
        &self,
        input: ConvertReceiptInput,
        served: TransactionReceipt<E>,
    ) -> bool where
        ChainSpec: Fn(u64) -> Option<BlobParams>,
        Builder: Fn(Receipt, usize, TransactionMeta) -> Result<E, EthApiError>,
     {
        &&& exists|params: Option<BlobParams>| #[trigger]
            call_ensures(self.chain_spec, (input.meta.timestamp,), params) && receipt_frame(
                served,
                input,
                params,
            )
        &&& call_ensures(
            self.build_rpc_receipt,
            (input.receipt, input.next_log_index, input.meta),
            Ok::<E, EthApiError>(served.inner),
        )
    }

    /// Whether the builder refuses `input` with `error`.
    pub open spec fn refuses<E>(&self, input: ConvertReceiptInput, error: EthApiError) -> bool where
        Builder: Fn(Receipt, usize, TransactionMeta) -> Result<E, EthApiError>,
     {
        call_ensures(
            self.build_rpc_receipt,
            (input.receipt, input.next_log_index, input.meta),
            Err::<E, EthApiError>(error),
        )
    }

    /// Whether this converter makes a receipt of `input`.
    pub open spec fn convertible<E>(&self, input: ConvertReceiptInput) -> bool where
        ChainSpec: Fn(u64) -> Option<BlobParams>,
        Builder: Fn(Receipt, usize, TransactionMeta) -> Result<E, EthApiError>,
     {
        exists|served: TransactionReceipt<E>| self.converts(input, served)
    }

    /// Whether the first of the inputs that cannot be converted is number `i`, for which the error
    /// is `error`.
    pub open spec fn fails_at<E>(
        &self,
        inputs: Seq<ConvertReceiptInput>,
        i: int,
        error: EthApiError,
    ) -> bool where
        ChainSpec: Fn(u64) -> Option<BlobParams>,
        Builder: Fn(Receipt, usize, TransactionMeta) -> Result<E, EthApiError>,
     {
        &&& 0 <= i < inputs.len()
        &&& self.refuses::<E>(inputs[i], error)
        &&& forall|j: int| 0 <= j < i ==> self.convertible::<E>(#[trigger] inputs[j])
    }

    /// Whether this converter can be asked for a receipt of `input`.
    pub open spec fn accepts<E>(&self, input: ConvertReceiptInput) -> bool where
        ChainSpec: Fn(u64) -> Option<BlobParams>,
        Builder: Fn(Receipt, usize, TransactionMeta) -> Result<E, EthApiError>,
     {
        &&& call_requires(self.chain_spec, (input.meta.timestamp,))
        &&& forall|params: Option<BlobParams>| #[trigger]
            call_ensures(self.chain_spec, (input.meta.timestamp,), params) ==> input.buildable(
                params,
            )
        &&& call_requires(
            self.build_rpc_receipt,
            (input.receipt, input.next_log_index, input.meta),
        )
    }

    /// Converts all receipts, in their order, or fails with the error of the first that cannot be
    /// converted.
    pub fn convert_receipts<E>(&self, inputs: Vec<ConvertReceiptInput>) -> (result: Result<
        Vec<TransactionReceipt<E>>,
        EthApiError,
    >) where
        ChainSpec: Fn(u64) -> Option<BlobParams>,
        Builder: Fn(Receipt, usize, TransactionMeta) -> Result<E, EthApiError>,

        requires
            forall|i: int| 0 <= i < inputs@.len() ==> self.accepts::<E>(#[trigger] inputs@[i]),
        ensures
            result matches Ok(served) ==> {
                &&& served@.len() == inputs@.len()
                &&& forall|i: int|
                    0 <= i < served@.len() ==> self.converts(inputs@[i], #[trigger] served@[i])
            },
            result matches Err(error) ==> exists|i: int| #[trigger]
                self.fails_at::<E>(inputs@, i, error),
    {
        let ghost all = inputs@;
        let pending = inputs;
        let mut receipts: Vec<TransactionReceipt<E>> = Vec::with_capacity(pending.len());
        for input in it: pending
            invariant
                it.seq() == all,
                all == inputs@,
                receipts@.len() == it.index(),
                forall|i: int| 0 <= i < all.len() ==> self.accepts::<E>(#[trigger] all[i]),
                forall|i: int|
                    0 <= i < receipts@.len() ==> self.converts(all[i], #[trigger] receipts@[i]),
        {
            let ghost at = it.index();
            assert(input == all[at]);
            let blob_params: Option<BlobParams> = (self.chain_spec)(input.meta.timestamp);
            match build_receipt(input, blob_params, &self.build_rpc_receipt) {
                Ok(served) => {
                    assert(self.converts(all[at], served));
                    receipts.push(served);
                },
                Err(error) => {
                    assert forall|j: int| 0 <= j < at implies self.convertible::<E>(
                        #[trigger] all[j],
                    ) by {
                        assert(self.converts(all[j], receipts@[j]));
                    }
                    let failure: Result<Vec<TransactionReceipt<E>>, EthApiError> = Err(error);
                    assert(self.fails_at::<E>(inputs@, at, failure->Err_0));
                    return failure;
                },
            }
        }
        Ok(receipts)
    }
}

/// An Ethereum receipt is served for every transaction but those of type ML-DSA.
pub proof fn law_receipts_served_unless_ml_dsa(
    result: Result<ReceiptEnvelope, EthApiError>,
    receipt: Receipt,
    next_log_index: usize,
    meta: TransactionMeta,
)
    requires
        is_ethereum_receipt(result, receipt, next_log_index, meta),
    ensures
        result is Ok <==> !(receipt.tx_type is MlDsa),
{
}

} // verus!
