//! The engine API handler, direct insertion and big blocks.

use vstd::prelude::*;

use crate::big_block::{
    begin_new_payload, finish_new_payload, validate_big_block_data, BigBlockData, BigBlockMap,
    EngineApiError, NewPayload, NewPayloadError, NewPayloadTimings, RethPayloadStatus,
};
use crate::engine::{
    on_tree_event, step, BlockNumHash, DownloadAction, DownloadOutcome, DownloadRequest, Effect,
    EngineApiEvent, EngineApiKind, EngineHandler, FromEngine, FromOrchestrator, HandlerEvent, Next,
    Polled, RequestHandlerEvent, Source,
};
use crate::insert::{
    insert_outcome, on_undelivered, EngineApiRequest, ExecutedBlockInsertError,
    ExecutedBlockInsertRequest, ExecutedBlockInsertSender, InsertPermit,
};
use crate::primitives::B256;

verus! {

/// The handler cannot go on exactly where the tree is gone.
pub proof fn law_fatal_without_tree<C, A>(
    event: Option<EngineApiEvent<C, A>>,
    result: RequestHandlerEvent<C, A>,
)
    requires
        call_ensures(on_tree_event::<C, A>, (event,), result),
    ensures
        event is None <==> result == RequestHandlerEvent::<C, A>::HandlerEvent(
            HandlerEvent::FatalError,
        ),
{
}

/// Every download that the tree asks for, of a set or of a range, is asked for as it is, and no
/// other is.
pub proof fn law_tree_downloads<C, A>(
    event: Option<EngineApiEvent<C, A>>,
    result: RequestHandlerEvent<C, A>,
)
    requires
        call_ensures(on_tree_event::<C, A>, (event,), result),
    ensures
        event matches Some(EngineApiEvent::Download(request)) ==> result == RequestHandlerEvent::<
            C,
            A,
        >::Download(request),
        result matches RequestHandlerEvent::Download(request) ==> event == Some(
            EngineApiEvent::<C, A>::Download(request),
        ),
{
}

/// Every event of the consensus engine and every backfill action is passed on as it is, and nothing
/// else is.
pub proof fn law_tree_events<C, A>(
    event: Option<EngineApiEvent<C, A>>,
    result: RequestHandlerEvent<C, A>,
)
    requires
        call_ensures(on_tree_event::<C, A>, (event,), result),
    ensures
        event matches Some(EngineApiEvent::BeaconConsensus(inner)) ==> result
            == RequestHandlerEvent::<C, A>::HandlerEvent(HandlerEvent::Event(inner)),
        event matches Some(EngineApiEvent::BackfillAction(inner)) ==> result
            == RequestHandlerEvent::<C, A>::HandlerEvent(HandlerEvent::BackfillAction(inner)),
        result matches RequestHandlerEvent::HandlerEvent(HandlerEvent::Event(inner)) ==> event
            == Some(EngineApiEvent::<C, A>::BeaconConsensus(inner)),
        result matches RequestHandlerEvent::HandlerEvent(HandlerEvent::BackfillAction(inner))
            ==> event == Some(EngineApiEvent::<C, A>::BackfillAction(inner)),
{
}

/// What the request handler emits is returned as it is; a backfill action first drops the
/// downloads, and nothing else does.
pub proof fn law_step_returns_events<E, A, Req, B, O>(
    polled: Polled<E, A, Req, B>,
    done: (Effect<Req, B, O>, Next<E, A>),
)
    requires
        call_ensures(step::<E, A, Req, B, O>, (polled,), done),
    ensures
        polled matches Polled::Handler(Some(RequestHandlerEvent::HandlerEvent(event))) ==> done.1
            == Next::<E, A>::Ready(event),
        done.1 matches Next::Ready(event) ==> polled == Polled::<E, A, Req, B>::Handler(
            Some(RequestHandlerEvent::HandlerEvent(event)),
        ),
        (done.0 matches Effect::Download(DownloadAction::Clear)) <==> (
        polled matches Polled::Handler(
            Some(RequestHandlerEvent::HandlerEvent(HandlerEvent::BackfillAction(_))),
        )),
{
}

/// A request goes to the request handler, downloaded blocks too, a request for blocks to the
/// downloader; nothing else is passed on.
pub proof fn law_step_passes_on<E, A, Req, B, O>(
    polled: Polled<E, A, Req, B>,
    done: (Effect<Req, B, O>, Next<E, A>),
)
    requires
        call_ensures(step::<E, A, Req, B, O>, (polled,), done),
    ensures
        polled matches Polled::Requests(Some(request)) ==> done.0 == Effect::<Req, B, O>::Deliver(
            FromEngine::Request(request),
        ),
        polled matches Polled::Downloader(Some(DownloadOutcome::Blocks(blocks))) ==> done.0
            == Effect::<Req, B, O>::Deliver(FromEngine::DownloadedBlocks(blocks)),
        polled matches Polled::Handler(Some(RequestHandlerEvent::Download(request))) ==> done.0
            == Effect::<Req, B, O>::Download(DownloadAction::Download(request)),
        done.0 matches Effect::Deliver(FromEngine::Request(request)) ==> polled == Polled::<
            E,
            A,
            Req,
            B,
        >::Requests(Some(request)),
        done.0 matches Effect::Deliver(FromEngine::DownloadedBlocks(blocks)) ==> polled == Polled::<
            E,
            A,
            Req,
            B,
        >::Downloader(Some(DownloadOutcome::Blocks(blocks))),
        !(done.0 matches Effect::Deliver(FromEngine::Event(_))),
        done.0 matches Effect::Download(DownloadAction::Download(request)) ==> polled == Polled::<
            E,
            A,
            Req,
            B,
        >::Handler(Some(RequestHandlerEvent::Download(request))),
{
}

/// The request handler is asked until it has nothing, then the requests, then the downloader;
/// whatever one of the latter two has sends the handler to the request handler again; it rests only
/// after the downloader had nothing.
pub proof fn law_step_order<E, A, Req, B, O>(
    polled: Polled<E, A, Req, B>,
    done: (Effect<Req, B, O>, Next<E, A>),
)
    requires
        call_ensures(step::<E, A, Req, B, O>, (polled,), done),
    ensures
        polled == Polled::<E, A, Req, B>::Handler(None) <==> done.1 == Next::<E, A>::Poll(
            Source::Requests,
        ),
        polled == Polled::<E, A, Req, B>::Requests(None) <==> done.1 == Next::<E, A>::Poll(
            Source::Downloader,
        ),
        polled == Polled::<E, A, Req, B>::Downloader(None) <==> done.1 is Pending,
        polled matches Polled::Requests(Some(_)) ==> done.1 == Next::<E, A>::Poll(Source::Handler),
        polled matches Polled::Downloader(Some(_)) ==> done.1 == Next::<E, A>::Poll(
            Source::Handler,
        ),
        polled matches Polled::Handler(Some(RequestHandlerEvent::Download(_))) ==> done.1 == Next::<
            E,
            A,
        >::Poll(Source::Handler),
{
}

/// A handler consists of the parts that it is made of, each of which can be changed by itself.
pub proof fn law_handler_parts<T, S, D>(
    handler: T,
    downloader: D,
    requests: S,
    engine: EngineHandler<T, S, D>,
    of: &mut EngineHandler<T, S, D>,
    a: &mut T,
)
    requires
        call_ensures(EngineHandler::<T, S, D>::new, (handler, downloader, requests), engine),
        *old(of) == engine,
        call_ensures(EngineHandler::<T, S, D>::handler_mut, (of,), a),
    ensures
        *old(a) == handler,
        final(of).parts() == (*final(a), downloader, requests),
{
}

/// The downloader of a handler can be changed by itself.
pub proof fn law_handler_downloader<T, S, D>(
    of: &mut EngineHandler<T, S, D>,
    a: &mut D,
)
    requires
        call_ensures(EngineHandler::<T, S, D>::downloader_mut, (of,), a),
    ensures
        *old(a) == old(of).parts().1,
        final(of).parts() == (old(of).parts().0, *final(a), old(of).parts().2),
{
}

/// The requests of a handler can be changed by themselves.
pub proof fn law_handler_requests<T, S, D>(
    of: &mut EngineHandler<T, S, D>,
    a: &mut S,
)
    requires
        call_ensures(EngineHandler::<T, S, D>::incoming_requests_mut, (of,), a),
    ensures
        *old(a) == old(of).parts().2,
        final(of).parts() == (old(of).parts().0, old(of).parts().1, *final(a)),
{
}

/// A request for one block is for the set of that block alone.
pub proof fn law_single_block(
    hash: B256,
    request: DownloadRequest,
)
    requires
        call_ensures(DownloadRequest::single_block, (hash,), request),
    ensures
        request matches DownloadRequest::BlockSet(hashes) && hashes@.len() == 1 && hashes@[0]
            == hash,
{
}

/// The kinds are told apart, and Ethereum is the default.
pub proof fn law_engine_kinds(
    kind: EngineApiKind,
    ethereum: bool,
    opstack: bool,
    start: EngineApiKind,
)
    requires
        call_ensures(EngineApiKind::is_ethereum, (&kind,), ethereum),
        call_ensures(EngineApiKind::is_opstack, (&kind,), opstack),
        call_ensures(<EngineApiKind as Default>::default, (), start),
    ensures
        ethereum == (kind is Ethereum),
        opstack == (kind is OpStack),
        start is Ethereum,
{
}

/// Backfill actions are told apart, and events of the consensus engine become events of the tree.
pub proof fn law_tree_event_kinds<C, A>(
    event: EngineApiEvent<C, A>,
    backfill: bool,
    inner: C,
    wrapped: EngineApiEvent<C, A>,
)
    requires
        call_ensures(EngineApiEvent::<C, A>::is_backfill_action, (&event,), backfill),
        call_ensures(<EngineApiEvent<C, A> as From<C>>::from, (inner,), wrapped),
    ensures
        backfill == (event is BackfillAction),
        wrapped == EngineApiEvent::<C, A>::BeaconConsensus(inner),
{
}

/// What the request handler is told says where it comes from.
pub proof fn law_told<M, X, B, O>(
    message: M,
    request: EngineApiRequest<M, X>,
    told: FromEngine<EngineApiRequest<M, X>, B, O>,
    event: FromOrchestrator<O>,
    other: FromEngine<EngineApiRequest<M, X>, B, O>,
)
    requires
        call_ensures(<EngineApiRequest<M, X> as From<M>>::from, (message,), request),
        call_ensures(
            <FromEngine<EngineApiRequest<M, X>, B, O> as From<EngineApiRequest<M, X>>>::from,
            (request,),
            told,
        ),
        call_ensures(
            <FromEngine<EngineApiRequest<M, X>, B, O> as From<FromOrchestrator<O>>>::from,
            (event,),
            other,
        ),
    ensures
        request == EngineApiRequest::<M, X>::Beacon(message),
        told == FromEngine::<EngineApiRequest<M, X>, B, O>::Request(request),
        other == FromEngine::<EngineApiRequest<M, X>, B, O>::Event(event),
{
}

/// A sender starts out with its whole capacity.
pub proof fn law_new_sender(
    capacity: usize,
    sender: ExecutedBlockInsertSender,
    told: usize,
    available: usize,
)
    requires
        call_ensures(ExecutedBlockInsertSender::new, (capacity,), sender),
        call_ensures(ExecutedBlockInsertSender::capacity, (&sender,), told),
        call_ensures(ExecutedBlockInsertSender::available_capacity, (&sender,), available),
    ensures
        told == capacity,
        available == capacity,
{
}

/// A request is admitted exactly while there is capacity, takes one unit of it, and carries head
/// and block; otherwise the capacity is told, and nothing changes.
pub proof fn law_insert<X>(
    sender: &mut ExecutedBlockInsertSender,
    head: BlockNumHash,
    block: X,
    result: Result<ExecutedBlockInsertRequest<X>, ExecutedBlockInsertError>,
    capacity: usize,
    before: usize,
    after: usize,
    told: BlockNumHash,
    inner: &X,
)
    requires
        call_ensures(ExecutedBlockInsertSender::insert::<X>, (sender, head, block), result),
        call_ensures(ExecutedBlockInsertSender::capacity, (&*old(sender),), capacity),
        call_ensures(ExecutedBlockInsertSender::available_capacity, (&*old(sender),), before),
        call_ensures(ExecutedBlockInsertSender::available_capacity, (&*final(sender),), after),
        result matches Ok(request) ==> call_ensures(
            ExecutedBlockInsertRequest::<X>::expected_canonical_head,
            (&request,),
            told,
        ) && call_ensures(ExecutedBlockInsertRequest::<X>::block, (&request,), inner),
    ensures
        result is Ok <==> before > 0,
        before > 0 ==> after == before - 1 && told == head && *inner == block,
        before == 0 ==> after == 0 && result == Err::<
            ExecutedBlockInsertRequest<X>,
            ExecutedBlockInsertError,
        >(ExecutedBlockInsertError::QueueFull { capacity }),
{
}

/// A permit that comes back gives one unit of capacity back; the capacity as such never changes.
pub proof fn law_release(
    sender: &mut ExecutedBlockInsertSender,
    permit: InsertPermit,
    before: usize,
    after: usize,
    capacity: usize,
    still: usize,
)
    requires
        call_ensures(ExecutedBlockInsertSender::release, (sender, permit), ()),
        call_ensures(ExecutedBlockInsertSender::available_capacity, (&*old(sender),), before),
        call_ensures(ExecutedBlockInsertSender::available_capacity, (&*final(sender),), after),
        call_ensures(ExecutedBlockInsertSender::capacity, (&*old(sender),), capacity),
        call_ensures(ExecutedBlockInsertSender::capacity, (&*final(sender),), still),
        before < capacity,
    ensures
        after == before + 1,
        still == capacity,
{
}

/// A request is split into what it was made of, and a rejected one is answered with the error
/// given.
pub proof fn law_request_parts<X>(
    request: ExecutedBlockInsertRequest<X>,
    head: BlockNumHash,
    block: &X,
    parts: (BlockNumHash, X, InsertPermit),
    error: ExecutedBlockInsertError,
    rejected: (InsertPermit, Result<(), ExecutedBlockInsertError>),
)
    requires
        call_ensures(ExecutedBlockInsertRequest::<X>::expected_canonical_head, (&request,), head),
        call_ensures(ExecutedBlockInsertRequest::<X>::block, (&request,), block),
        call_ensures(ExecutedBlockInsertRequest::<X>::into_parts, (request,), parts),
        call_ensures(ExecutedBlockInsertRequest::<X>::reject, (request, error), rejected),
    ensures
        parts.0 == head,
        parts.1 == *block,
        rejected.1 == Err::<(), ExecutedBlockInsertError>(error),
{
}

/// The caller learns that the engine is unavailable exactly where the request could not be enqueued
/// or the tree says so, that the acknowledgement was dropped where there is none, and otherwise
/// what the tree says.
pub proof fn law_insert_outcome(
    enqueued: bool,
    answer: Option<Result<(), ExecutedBlockInsertError>>,
    result: Result<(), ExecutedBlockInsertError>,
)
    requires
        call_ensures(insert_outcome, (enqueued, answer), result),
    ensures
        !enqueued ==> result == Err::<(), ExecutedBlockInsertError>(
            ExecutedBlockInsertError::EngineUnavailable,
        ),
        enqueued && answer is None ==> result == Err::<(), ExecutedBlockInsertError>(
            ExecutedBlockInsertError::AcknowledgementDropped,
        ),
        enqueued && answer is Some ==> answer == Some(result),
        result is Ok ==> enqueued && answer is Some && answer->Some_0 is Ok,
{
}

/// Of the events that cannot be sent to the tree, exactly the requests that await an answer get
/// one.
pub proof fn law_undelivered<M, X, B, O>(
    event: FromEngine<EngineApiRequest<M, X>, B, O>,
    rejected: Option<(InsertPermit, Result<(), ExecutedBlockInsertError>)>,
)
    requires
        call_ensures(on_undelivered::<M, X, B, O>, (event,), rejected),
    ensures
        rejected is Some <==> (event matches FromEngine::Request(
            EngineApiRequest::InsertExecutedBlockIfCanonical(_),
        )),
        rejected matches Some(rejected) ==> rejected.1 == Err::<(), ExecutedBlockInsertError>(
            ExecutedBlockInsertError::EngineUnavailable,
        ),
{
}

/// Segments are accepted exactly where there is one, the first starts at transaction 0, and each of
/// the others starts after the one before it. Otherwise the first of the three that fails is named.
pub proof fn law_segments<T>(
    data: BigBlockData<T>,
    result: Result<(), EngineApiError>,
)
    requires
        call_ensures(validate_big_block_data::<T>, (&data,), result),
    ensures
        result is Ok <==> {
            &&& data.env_switches@.len() > 0
            &&& data.env_switches@[0].0 == 0
            &&& forall|i: int|
                1 <= i < data.env_switches@.len() ==> data.env_switches@[i - 1].0 < (
                #[trigger] data.env_switches@[i]).0
        },
        result matches Err(error) ==> {
            &&& error.code == -32602
            &&& error.message@ == "Invalid params"@
            &&& error.data@ == if data.env_switches@.len() == 0 {
                "big_block_data.env_switches must include the base segment at transaction index 0"@
            } else if data.env_switches@[0].0 != 0 {
                "big_block_data.env_switches[0] must start at transaction index 0"@
            } else {
                "big_block_data.env_switches must be strictly ordered by transaction index"@
            }
        },
{
    crate::big_block::law_accepted_segments(data.env_switches@);
}

/// An error is told in words by what exactly is wrong.
pub proof fn law_engine_error_text(
    error: EngineApiError,
    text: String,
)
    requires
        call_ensures(EngineApiError::to_string, (&error,), text),
    ensures
        text@ == error.data@,
{
}

/// What is inserted is found under its hash, in place of what was there, until it is removed;
/// nothing else is touched.
pub proof fn law_pending_map<T>(
    empty: BigBlockMap<T>,
    map: &mut BigBlockMap<T>,
    hash: B256,
    data: BigBlockData<T>,
    other: B256,
    before: Option<&BigBlockData<T>>,
    found: Option<&BigBlockData<T>>,
    after: Option<&BigBlockData<T>>,
    nothing: Option<&BigBlockData<T>>,
)
    requires
        call_ensures(BigBlockMap::<T>::new, (), empty),
        call_ensures(BigBlockMap::<T>::get, (&empty, &other), nothing),
        call_ensures(BigBlockMap::<T>::insert, (map, hash, data), ()),
        call_ensures(BigBlockMap::<T>::get, (&*old(map), &other), before),
        call_ensures(BigBlockMap::<T>::get, (&*final(map), &hash), found),
        call_ensures(BigBlockMap::<T>::get, (&*final(map), &other), after),
    ensures
        nothing is None,
        found == Some(&data),
        other != hash ==> (before is Some <==> after is Some) && (before is Some ==> *before->Some_0
            == *after->Some_0),
{
}

/// What is removed is not found any more; nothing else is touched.
pub proof fn law_pending_removed<T>(
    map: &mut BigBlockMap<T>,
    hash: B256,
    other: B256,
    before: Option<&BigBlockData<T>>,
    gone: Option<&BigBlockData<T>>,
    after: Option<&BigBlockData<T>>,
)
    requires
        call_ensures(BigBlockMap::<T>::remove, (map, &hash), ()),
        call_ensures(BigBlockMap::<T>::get, (&*old(map), &other), before),
        call_ensures(BigBlockMap::<T>::get, (&*final(map), &hash), gone),
        call_ensures(BigBlockMap::<T>::get, (&*final(map), &other), after),
    ensures
        gone is None,
        other != hash ==> (before is Some <==> after is Some) && (before is Some ==> *before->Some_0
            == *after->Some_0),
{
}

/// A payload goes to the engine unless it cannot be decoded or its big-block data are refused.
/// While the engine works, exactly its data are added to what is pending, under its hash. The
/// engine waits for persistence and caches unless told not to.
pub proof fn law_new_payload<P, D, T>(
    pending: &mut BigBlockMap<T>,
    payload: P,
    hash: B256,
    persistence: Option<bool>,
    caches: Option<bool>,
    data: Option<BigBlockData<T>>,
    result: Result<NewPayload<P>, NewPayloadError<D>>,
    verdict: Result<(), EngineApiError>,
)
    requires
        call_ensures(
            begin_new_payload::<P, D, T>,
            (pending, Ok((payload, hash)), persistence, caches, data),
            result,
        ),
        data matches Some(data) ==> call_ensures(validate_big_block_data::<T>, (&data,), verdict),
    ensures
        data is None || verdict is Ok ==> result is Ok,
        result matches Ok(request) ==> {
            &&& request.payload == payload
            &&& request.wait_for_persistence == (persistence != Some(false))
            &&& request.wait_for_caches == (caches != Some(false))
            &&& request.big_block_hash == if data is Some {
                Some(hash)
            } else {
                None
            }
            &&& data matches Some(data) ==> final(pending)@ == old(pending)@.insert(hash, data)
            &&& data is None ==> final(pending)@ == old(pending)@
        },
        data is Some && verdict is Err ==> result == Err::<NewPayload<P>, NewPayloadError<D>>(
            NewPayloadError::InvalidBigBlockData(verdict->Err_0),
        ) && final(pending)@ == old(pending)@,
{
}

/// A payload that cannot be decoded is refused with the reason, and nothing becomes pending.
pub proof fn law_undecodable_payload<P, D, T>(
    pending: &mut BigBlockMap<T>,
    error: D,
    persistence: Option<bool>,
    caches: Option<bool>,
    data: Option<BigBlockData<T>>,
    result: Result<NewPayload<P>, NewPayloadError<D>>,
)
    requires
        call_ensures(
            begin_new_payload::<P, D, T>,
            (pending, Err(error), persistence, caches, data),
            result,
        ),
    ensures
        result == Err::<NewPayload<P>, NewPayloadError<D>>(NewPayloadError::Decode(error)),
        final(pending)@ == old(pending)@,
{
}

/// Whatever the engine answers, the data of the payload are forgotten, and nothing else is. Its
/// status is reported with the times that it took, of which 64 bits are kept.
pub proof fn law_payload_done<S, E, T>(
    pending: &mut BigBlockMap<T>,
    hash: Option<B256>,
    answer: Result<(S, NewPayloadTimings), E>,
    result: Result<RethPayloadStatus<S>, E>,
)
    requires
        call_ensures(finish_new_payload::<S, E, T>, (pending, hash, answer), result),
    ensures
        hash matches Some(hash) ==> final(pending)@ == old(pending)@.remove(hash),
        hash is None ==> final(pending)@ == old(pending)@,
        answer matches Err(error) ==> result == Err::<RethPayloadStatus<S>, E>(error),
        answer matches Ok((status, times)) ==> {
            &&& result is Ok
            &&& result->Ok_0.status == status
            &&& times.latency < 0x1_0000_0000_0000_0000 ==> result->Ok_0.latency_us == times.latency
            &&& times.persistence_wait < 0x1_0000_0000_0000_0000
                ==> result->Ok_0.persistence_wait_us == times.persistence_wait
            &&& (times.latency - result->Ok_0.latency_us) % 0x1_0000_0000_0000_0000 == 0
            &&& (times.persistence_wait - result->Ok_0.persistence_wait_us)
                % 0x1_0000_0000_0000_0000 == 0
            &&& result->Ok_0.execution_cache_wait_us is Some
                <==> times.execution_cache_wait is Some
            &&& result->Ok_0.sparse_trie_wait_us is Some <==> times.sparse_trie_wait is Some
            &&& times.execution_cache_wait matches Some(time) ==> (time
                - result->Ok_0.execution_cache_wait_us->Some_0) % 0x1_0000_0000_0000_0000 == 0
            &&& times.sparse_trie_wait matches Some(time) ==> (time
                - result->Ok_0.sparse_trie_wait_us->Some_0) % 0x1_0000_0000_0000_0000 == 0
        },
{
}

} // verus!
