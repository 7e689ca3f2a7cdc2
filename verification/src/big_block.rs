//! Big blocks: payloads that are executed as several blocks in a row.
//!
//! While the engine executes a payload with big-block data, the data are pending under the hash of
//! the payload, where the executor finds them.

use vstd::prelude::*;

use crate::primitives::B256;

verus! {

/// Error code for parameters that do not make sense.
pub const INVALID_PARAMS_CODE: i32 = -32602;

/// Message for parameters that do not make sense.
pub const INVALID_PARAMS_MSG: &'static str = "Invalid params";

/// What is wrong where no segment is given.
pub const MISSING_BASE_SEGMENT: &'static str =
    "big_block_data.env_switches must include the base segment at transaction index 0";

/// What is wrong where the first segment does not start the payload.
pub const BASE_SEGMENT_NOT_FIRST: &'static str =
    "big_block_data.env_switches[0] must start at transaction index 0";

/// What is wrong where the segments are out of order.
pub const SEGMENTS_OUT_OF_ORDER: &'static str =
    "big_block_data.env_switches must be strictly ordered by transaction index";

/// An error of the engine API.
#[derive(Clone, Copy, Debug, PartialEq, Eq)]
pub struct EngineApiError {
    /// Error code.
    pub code: i32,
    /// What kind of error it is.
    pub message: &'static str,
    /// What exactly is wrong.
    pub data: &'static str,
}

impl EngineApiError {
    /// What exactly is wrong, in words.
    pub fn to_string(&self) -> (text: String)
        ensures
            text@ == self.data@,
    {
        self.data.to_owned()
    }
}

/// How a payload is cut into blocks.
#[derive(Debug)]
pub struct BigBlockData<T> {
    /// For each segment, the index of its first transaction and its environment.
    pub env_switches: Vec<(usize, T)>,
    /// Hashes of the blocks before the payload.
    pub prior_block_hashes: Vec<(u64, B256)>,
}

/// The error for big-block data that do not make sense.
pub open spec fn invalid_data(data: &'static str) -> EngineApiError {
    EngineApiError { code: INVALID_PARAMS_CODE, message: INVALID_PARAMS_MSG, data }
}

/// Whether the segments start at strictly growing indices.
pub open spec fn strictly_ordered<T>(switches: Seq<(usize, T)>) -> bool {
    forall|i: int, j: int|
        0 <= i < j < switches.len() ==> (#[trigger] switches[i]).0 < (#[trigger] switches[j]).0
}

/// What is wrong with the segments, if anything.
pub open spec fn verdict<T>(switches: Seq<(usize, T)>) -> Result<(), EngineApiError> {
    if switches.len() == 0 {
        Err(invalid_data(MISSING_BASE_SEGMENT))
    } else if switches[0].0 != 0 {
        Err(invalid_data(BASE_SEGMENT_NOT_FIRST))
    } else if !strictly_ordered(switches) {
        Err(invalid_data(SEGMENTS_OUT_OF_ORDER))
    } else {
        Ok(())
    }
}

fn invalid_big_block_data(data: &'static str) -> (error: EngineApiError)
    ensures
        error == invalid_data(data),
{
    EngineApiError { code: INVALID_PARAMS_CODE, message: INVALID_PARAMS_MSG, data }
}

/// Checks that the segments cover the payload from its first transaction on, in order.
pub fn validate_big_block_data<T>(data: &BigBlockData<T>) -> (result: Result<(), EngineApiError>)
    ensures
        result == verdict(data.env_switches@),
{
    let switches = &data.env_switches;
    if switches.len() == 0 {
        return Err(invalid_big_block_data(MISSING_BASE_SEGMENT));
    }
    if switches[0].0 != 0 {
        return Err(invalid_big_block_data(BASE_SEGMENT_NOT_FIRST));
    }
    let mut i: usize = 1;
    while i < switches.len()
        invariant
            1 <= i <= switches.len(),
            switches == data.env_switches,
            switches@.len() > 0,
            switches@[0].0 == 0,
            forall|a: int, b: int|
                0 <= a < b < i ==> (#[trigger] switches@[a]).0 < (#[trigger] switches@[b]).0,
        decreases switches.len() - i,
    {
        let previous: usize = switches[i - 1].0;
        let current: usize = switches[i].0;
        if current <= previous {
            assert(!(switches@[i - 1].0 < switches@[i as int].0));
            return Err(invalid_big_block_data(SEGMENTS_OUT_OF_ORDER));
        }
        i += 1;
    }
    Ok(())
}

/// Big-block data by the hash of their payload.
#[derive(Debug)]
pub struct BigBlockMap<T> {
    entries: Vec<(B256, BigBlockData<T>)>,
}

/// What entries that were made one after the other leave: of those with the same hash the last.
pub open spec fn map_of<T>(entries: Seq<(B256, BigBlockData<T>)>) -> Map<B256, BigBlockData<T>>
    decreases entries.len(),
{
    if entries.len() == 0 {
        Map::empty()
    } else {
        map_of(entries.drop_last()).insert(entries.last().0, entries.last().1)
    }
}

impl<T> View for BigBlockMap<T> {
    type V = Map<B256, BigBlockData<T>>;

    /// What is pending under each hash.
    closed spec fn view(&self) -> Map<B256, BigBlockData<T>> {
        map_of(self.entries@)
    }
}

impl<T> BigBlockMap<T> {
    /// Nothing is pending.
    pub fn new() -> (map: Self)
        ensures
            map@ == Map::<B256, BigBlockData<T>>::empty(),
    {
        BigBlockMap { entries: Vec::new() }
    }

    /// The data that are pending under the hash, if any.
    pub fn get(&self, hash: &B256) -> (data: Option<&BigBlockData<T>>)
        ensures
            match data {
                Some(data) => self@.contains_pair(*hash, *data),
                None => !self@.contains_key(*hash),
            },
    {
        let mut i: usize = self.entries.len();
        assert(self.entries@.take(i as int) =~= self.entries@);
        while i > 0
            invariant
                i <= self.entries@.len(),
                map_of(self.entries@).contains_key(*hash) == map_of(
                    self.entries@.take(i as int),
                ).contains_key(*hash),
                map_of(self.entries@).contains_key(*hash) ==> map_of(self.entries@)[*hash]
                    == map_of(self.entries@.take(i as int))[*hash],
            decreases i,
        {
            proof {
                let front = self.entries@.take(i as int);
                assert(front.drop_last() =~= self.entries@.take(i - 1));
                assert(front.last() == self.entries@[i - 1]);
            }
            i -= 1;
            if self.entries[i].0 == *hash {
                return Some(&self.entries[i].1);
            }
        }
        None
    }

    /// Forgets what is pending under the hash.
    pub fn remove(&mut self, hash: &B256)
        ensures
            final(self)@ == old(self)@.remove(*hash),
    {
        let mut entries: Vec<(B256, BigBlockData<T>)> = Vec::new();
        std::mem::swap(&mut entries, &mut self.entries);
        let ghost all = entries@;
        let pending = entries;
        for entry in it: pending
            invariant
                it.seq() == all,
                map_of(self.entries@) == map_of(all.take(it.index())).remove(*hash),
        {
            proof {
                let front = all.take(it.index() + 1);
                assert(front.drop_last() =~= all.take(it.index()));
                assert(front.last() == entry);
            }
            if entry.0 != *hash {
                let ghost kept = self.entries@;
                self.entries.push(entry);
                assert(self.entries@.drop_last() =~= kept);
            }
            assert(map_of(self.entries@) =~= map_of(all.take(it.index() + 1)).remove(*hash));
        }
        assert(all.take(all.len() as int) =~= all);
    }

    /// Makes the data pending under the hash, in place of any that were.
    pub fn insert(&mut self, hash: B256, data: BigBlockData<T>)
        ensures
            final(self)@ == old(self)@.insert(hash, data),
    {
        self.remove(&hash);
        let ghost kept = self.entries@;
        self.entries.push((hash, data));
        assert(self.entries@.drop_last() =~= kept);
        assert(self@ =~= old(self)@.insert(hash, data));
    }
}

/// A payload that is handed to the engine.
#[derive(Debug)]
pub struct NewPayload<P> {
    /// The payload.
    pub payload: P,
    /// Whether to wait until earlier blocks are persisted.
    pub wait_for_persistence: bool,
    /// Whether to wait until the caches are free.
    pub wait_for_caches: bool,
    /// The hash under which big-block data are pending while the engine works.
    pub big_block_hash: Option<B256>,
}

/// Why a payload is not handed to the engine.
#[derive(Debug)]
pub enum NewPayloadError<D> {
    /// The payload could not be decoded.
    Decode(D),
    /// The big-block data do not make sense.
    InvalidBigBlockData(EngineApiError),
}

/// How long the engine took, in microseconds.
#[derive(Clone, Copy, Debug)]
pub struct NewPayloadTimings {
    pub latency: u128,
    pub persistence_wait: u128,
    pub execution_cache_wait: Option<u128>,
    pub sparse_trie_wait: Option<u128>,
}

/// What the engine made of a payload, and how long it took, in microseconds.
#[derive(Clone, Copy, Debug)]
pub struct RethPayloadStatus<S> {
    pub status: S,
    pub latency_us: u64,
    pub persistence_wait_us: u64,
    pub execution_cache_wait_us: Option<u64>,
    pub sparse_trie_wait_us: Option<u64>,
}

/// What is pending while the engine works on a payload with the given hash and big-block data.
pub open spec fn pending_during<T>(
    pending: Map<B256, BigBlockData<T>>,
    hash: B256,
    data: Option<BigBlockData<T>>,
) -> Map<B256, BigBlockData<T>> {
    match data {
        Some(data) => pending.insert(hash, data),
        None => pending,
    }
}

/// What is pending once the engine is done with a payload whose data were pending under the given
/// hash.
pub open spec fn pending_after<T>(
    pending: Map<B256, BigBlockData<T>>,
    big_block_hash: Option<B256>,
) -> Map<B256, BigBlockData<T>> {
    match big_block_hash {
        Some(hash) => pending.remove(hash),
        None => pending,
    }
}

/// A number of microseconds in 64 bits; what does not fit is cut off.
pub open spec fn micros(n: u128) -> u64 {
    (n % 0x1_0000_0000_0000_0000) as u64
}

/// A number of microseconds in 64 bits, if there is one.
pub open spec fn opt_micros(n: Option<u128>) -> Option<u64> {
    match n {
        Some(n) => Some(micros(n)),
        None => None,
    }
}

fn as_micros(n: u128) -> (us: u64)
    ensures
        us == micros(n),
{
    (n % 0x1_0000_0000_0000_0000) as u64
}

fn opt_as_micros(n: Option<u128>) -> (us: Option<u64>)
    ensures
        us == opt_micros(n),
{
    match n {
        Some(n) => Some(as_micros(n)),
        None => None,
    }
}

/// Prepares a payload for the engine: checks its big-block data, if it has any, and makes them
/// pending under its hash. Unless told otherwise, the engine waits for persistence and caches.
/// Nothing becomes pending where the payload or the data are refused.
pub fn begin_new_payload<P, D, T>(
    pending: &mut BigBlockMap<T>,
    decoded: Result<(P, B256), D>,
    wait_for_persistence: Option<bool>,
    wait_for_caches: Option<bool>,
    big_block_data: Option<BigBlockData<T>>,
) -> (result: Result<NewPayload<P>, NewPayloadError<D>>)
    ensures
        match decoded {
            Err(error) => result == Err::<NewPayload<P>, NewPayloadError<D>>(
                NewPayloadError::Decode(error),
            ) && final(pending)@ == old(pending)@,
            Ok((payload, hash)) => if big_block_data is Some && verdict(
                big_block_data->Some_0.env_switches@,
            ) is Err {
                &&& result == Err::<NewPayload<P>, NewPayloadError<D>>(
                    NewPayloadError::InvalidBigBlockData(
                        verdict(big_block_data->Some_0.env_switches@)->Err_0,
                    ),
                )
                &&& final(pending)@ == old(pending)@
            } else {
                &&& result == Ok::<NewPayload<P>, NewPayloadError<D>>(
                    (NewPayload {
                        payload,
                        wait_for_persistence: wait_for_persistence != Some(false),
                        wait_for_caches: wait_for_caches != Some(false),
                        big_block_hash: if big_block_data is Some {
                            Some(hash)
                        } else {
                            None
                        },
                    }),
                )
                &&& final(pending)@ == pending_during(old(pending)@, hash, big_block_data)
            },
        },
{
    let wait_for_persistence: bool = wait_for_persistence.unwrap_or(true);
    let wait_for_caches: bool = wait_for_caches.unwrap_or(true);
    let (payload, hash) = match decoded {
        Ok(decoded) => decoded,
        Err(error) => return Err(NewPayloadError::Decode(error)),
    };
    let big_block_hash: Option<B256> = match big_block_data {
        Some(data) => {
            match validate_big_block_data(&data) {
                Ok(()) => {},
                Err(error) => return Err(NewPayloadError::InvalidBigBlockData(error)),
            }
            pending.insert(hash, data);
            Some(hash)
        },
        None => None,
    };
    Ok(NewPayload { payload, wait_for_persistence, wait_for_caches, big_block_hash })
}

/// Takes the engine's answer: forgets the big-block data of the payload, whatever the answer was,
/// and reports it with its timings.
pub fn finish_new_payload<S, E, T>(
    pending: &mut BigBlockMap<T>,
    big_block_hash: Option<B256>,
    answer: Result<(S, NewPayloadTimings), E>,
) -> (result: Result<RethPayloadStatus<S>, E>)
    ensures
        final(pending)@ == pending_after(old(pending)@, big_block_hash),
        result == match answer {
            Ok((status, timings)) => Ok::<RethPayloadStatus<S>, E>(
                RethPayloadStatus {
                    status,
                    latency_us: micros(timings.latency),
                    persistence_wait_us: micros(timings.persistence_wait),
                    execution_cache_wait_us: opt_micros(timings.execution_cache_wait),
                    sparse_trie_wait_us: opt_micros(timings.sparse_trie_wait),
                },
            ),
            Err(error) => Err(error),
        },
{
    if let Some(hash) = big_block_hash {
        pending.remove(&hash);
    }
    let (status, timings) = match answer {
        Ok(answer) => answer,
        Err(error) => return Err(error),
    };
    Ok(
        RethPayloadStatus {
            status,
            latency_us: as_micros(timings.latency),
            persistence_wait_us: as_micros(timings.persistence_wait),
            execution_cache_wait_us: opt_as_micros(timings.execution_cache_wait),
            sparse_trie_wait_us: opt_as_micros(timings.sparse_trie_wait),
        },
    )
}

/// While the engine works on a payload, exactly its big-block data are added to what is pending;
/// once it is done, they are gone, and nothing else has changed.
pub proof fn law_pending_only_while_in_flight<T>(
    pending: Map<B256, BigBlockData<T>>,
    hash: B256,
    data: BigBlockData<T>,
    other: B256,
)
    ensures
        pending_during(pending, hash, Some(data)).contains_pair(hash, data),
        !pending_after(pending_during(pending, hash, Some(data)), Some(hash)).contains_key(hash),
        pending_after(pending_during(pending, hash, Some(data)), Some(hash)) == pending.remove(
            hash,
        ),
        !pending.contains_key(hash) ==> pending_after(
            pending_during(pending, hash, Some(data)),
            Some(hash),
        ) == pending,
        pending_after(pending_during(pending, hash, None), None) == pending,
        other != hash ==> pending_during(pending, hash, Some(data)).contains_key(other)
            == pending.contains_key(other),
{
    assert(pending.insert(hash, data).remove(hash) =~= pending.remove(hash));
    if !pending.contains_key(hash) {
        assert(pending.remove(hash) =~= pending);
    }
}

/// Segments are accepted exactly if there is one, the first starts at transaction 0 and each of
/// the others starts after the one before it.
pub proof fn law_accepted_segments<T>(switches: Seq<(usize, T)>)
    ensures
        verdict(switches) is Ok <==> {
            &&& switches.len() > 0
            &&& switches[0].0 == 0
            &&& forall|i: int|
                1 <= i < switches.len() ==> switches[i - 1].0 < (#[trigger] switches[i]).0
        },
{
    if switches.len() > 0 && switches[0].0 == 0 && (forall|i: int|
        1 <= i < switches.len() ==> switches[i - 1].0 < (#[trigger] switches[i]).0) {
        assert forall|i: int, j: int| 0 <= i < j < switches.len() implies (
        #[trigger] switches[i]).0 < (#[trigger] switches[j]).0 by {
            lemma_steps_order(switches, i, j);
        }
    }
    if verdict(switches) is Ok {
        assert forall|i: int| 1 <= i < switches.len() implies switches[i - 1].0 < (
        #[trigger] switches[i]).0 by {
            assert(switches[i - 1].0 < switches[i].0);
        }
    }
}

proof fn lemma_steps_order<T>(switches: Seq<(usize, T)>, i: int, j: int)
    requires
        0 <= i < j < switches.len(),
        forall|k: int| 1 <= k < switches.len() ==> switches[k - 1].0 < (#[trigger] switches[k]).0,
    ensures
        switches[i].0 < switches[j].0,
    decreases j - i,
{
    assert(switches[j - 1].0 < switches[j].0);
    if i < j - 1 {
        lemma_steps_order(switches, i, j - 1);
    }
}

/// Consensus builder for big block execution, which takes every block as valid.
#[derive(Debug, Default, Clone, Copy)]
pub struct BbConsensusBuilder;

} // verus!
