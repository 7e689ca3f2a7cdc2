//! The engine API handler of the chain.
//!
//! The handler delegates requests of the consensus layer to a request handler, advances the request
//! handler and bubbles its events up, and downloads blocks for it on demand. What is polled comes
//! in from outside; what to do with it, and what to poll next, is decided here.

use vstd::prelude::*;
use vstd::std_specs::convert::FromSpecImpl;

use crate::primitives::B256;

verus! {

/// A block number and hash.
#[derive(Clone, Copy, Debug, PartialEq, Eq)]
pub struct BlockNumHash {
    pub number: u64,
    pub hash: B256,
}

/// Advances the chain based on incoming requests of the consensus layer.
#[derive(Debug)]
pub struct EngineHandler<T, S, D> {
    /// Processes requests.
    handler: T,
    /// Incoming requests that need to be processed.
    incoming_requests: S,
    /// Downloads blocks on demand.
    downloader: D,
}

impl<T, S, D> EngineHandler<T, S, D> {
    /// The parts: request handler, downloader and incoming requests.
    pub closed spec fn parts(self) -> (T, D, S) {
        (self.handler, self.downloader, self.incoming_requests)
    }

    /// Creates a new handler with the given request handler and downloader and incoming stream of
    /// requests.
    pub fn new(handler: T, downloader: D, incoming_requests: S) -> (engine: Self)
        ensures
            engine.parts() == (handler, downloader, incoming_requests),
    {
        Self { handler, incoming_requests, downloader }
    }

    /// Returns a mutable reference to the request handler.
    pub fn handler_mut(&mut self) -> (handler: &mut T)
        ensures
            *handler == old(self).parts().0,
            final(self).parts() == (*final(handler), old(self).parts().1, old(self).parts().2),
    {
        &mut self.handler
    }

    /// Returns a mutable reference to the downloader.
    pub fn downloader_mut(&mut self) -> (downloader: &mut D)
        ensures
            *downloader == old(self).parts().1,
            final(self).parts() == (old(self).parts().0, *final(downloader), old(self).parts().2),
    {
        &mut self.downloader
    }

    /// Returns a mutable reference to the incoming requests.
    pub fn incoming_requests_mut(&mut self) -> (requests: &mut S)
        ensures
            *requests == old(self).parts().2,
            final(self).parts() == (old(self).parts().0, old(self).parts().1, *final(requests)),
    {
        &mut self.incoming_requests
    }
}

/// A request to download blocks from the network.
#[derive(Debug)]
pub enum DownloadRequest {
    /// Download the given set of blocks.
    BlockSet(Vec<B256>),
    /// Download the given range of blocks.
    BlockRange(B256, u64),
}

impl DownloadRequest {
    /// A set of blocks names no block twice.
    pub open spec fn well_formed(self) -> bool {
        self matches DownloadRequest::BlockSet(hashes) ==> hashes@.no_duplicates()
    }

    /// Returns a request for a single block.
    pub fn single_block(hash: B256) -> (request: Self)
        ensures
            request.well_formed(),
            request matches DownloadRequest::BlockSet(hashes) && hashes@ == seq![hash],
    {
        let mut hashes: Vec<B256> = Vec::new();
        hashes.push(hash);
        assert(hashes@ =~= seq![hash]);
        DownloadRequest::BlockSet(hashes)
    }
}

/// What the downloader is told.
#[derive(Debug)]
pub enum DownloadAction {
    /// Stop downloading and forget what was downloaded.
    Clear,
    /// Download more blocks.
    Download(DownloadRequest),
}

/// What the downloader reports.
#[derive(Debug)]
pub enum DownloadOutcome<B> {
    /// Downloaded blocks.
    Blocks(Vec<B>),
    /// A download was started.
    NewDownloadStarted { remaining_blocks: u64, target: B256 },
}

/// What the handler tells the orchestrator; `A` is a backfill action.
#[derive(Debug)]
pub enum HandlerEvent<E, A> {
    /// Backfill sync is needed.
    BackfillAction(A),
    /// Some other event.
    Event(E),
    /// The handler cannot go on.
    FatalError,
}

/// What the request handler produces.
#[derive(Debug)]
pub enum RequestHandlerEvent<E, A> {
    /// An event emitted by the handler.
    HandlerEvent(HandlerEvent<E, A>),
    /// Request to download blocks.
    Download(DownloadRequest),
}

/// An event of the top level orchestrator; `O` says what happened.
#[derive(Debug)]
pub struct FromOrchestrator<O>(pub O);

/// What the request handler is told.
#[derive(Debug)]
pub enum FromEngine<Req, B, O> {
    /// Event from the top level orchestrator.
    Event(FromOrchestrator<O>),
    /// Request from the engine.
    Request(Req),
    /// Downloaded blocks from the network.
    DownloadedBlocks(Vec<B>),
}

impl<Req, B, O> From<FromOrchestrator<O>> for FromEngine<Req, B, O> {
    fn from(event: FromOrchestrator<O>) -> (told: Self) {
        FromEngine::Event(event)
    }
}

impl<Req, B, O> FromSpecImpl<FromOrchestrator<O>> for FromEngine<Req, B, O> {
    open spec fn obeys_from_spec() -> bool {
        true
    }

    open spec fn from_spec(event: FromOrchestrator<O>) -> Self {
        FromEngine::Event(event)
    }
}

/// What one of the three sources said when it was polled. `None` means that it has nothing now;
/// the requests have nothing either once their stream has ended.
#[derive(Debug)]
pub enum Polled<E, A, Req, B> {
    /// The request handler.
    Handler(Option<RequestHandlerEvent<E, A>>),
    /// The incoming requests.
    Requests(Option<Req>),
    /// The downloader.
    Downloader(Option<DownloadOutcome<B>>),
}

/// The three sources.
#[derive(Clone, Copy, Debug, PartialEq, Eq, Structural)]
pub enum Source {
    Handler,
    Requests,
    Downloader,
}

/// What is to be done before anything else is polled.
#[derive(Debug)]
pub enum Effect<Req, B, O> {
    /// Nothing.
    Nothing,
    /// Tell the request handler.
    Deliver(FromEngine<Req, B, O>),
    /// Tell the downloader.
    Download(DownloadAction),
}

/// How to go on.
#[derive(Debug)]
pub enum Next<E, A> {
    /// Poll this source.
    Poll(Source),
    /// Return the event.
    Ready(HandlerEvent<E, A>),
    /// Return that there is nothing to report now.
    Pending,
}

impl<E, A, Req, B> Polled<E, A, Req, B> {
    /// Which source was polled.
    pub open spec fn source(self) -> Source {
        match self {
            Polled::Handler(_) => Source::Handler,
            Polled::Requests(_) => Source::Requests,
            Polled::Downloader(_) => Source::Downloader,
        }
    }

    /// What is to be done about what was polled: a request and downloaded blocks go to the request
    /// handler, a request for blocks to the downloader; where backfill is needed, the downloads
    /// are dropped.
    pub open spec fn effect<O>(self) -> Effect<Req, B, O> {
        match self {
            Polled::Handler(Some(RequestHandlerEvent::Download(request))) => Effect::Download(
                DownloadAction::Download(request),
            ),
            Polled::Handler(
                Some(RequestHandlerEvent::HandlerEvent(HandlerEvent::BackfillAction(_))),
            ) => Effect::Download(DownloadAction::Clear),
            Polled::Requests(Some(request)) => Effect::Deliver(FromEngine::Request(request)),
            Polled::Downloader(Some(DownloadOutcome::Blocks(blocks))) => Effect::Deliver(
                FromEngine::DownloadedBlocks(blocks),
            ),
            _ => Effect::Nothing,
        }
    }

    /// How to go on after what was polled: the request handler comes first, until it has nothing;
    /// the requests come next, one at a time; the downloader comes last.
    pub open spec fn next(self) -> Next<E, A> {
        match self {
            Polled::Handler(Some(RequestHandlerEvent::HandlerEvent(event))) => Next::Ready(event),
            Polled::Handler(Some(RequestHandlerEvent::Download(_))) => Next::Poll(Source::Handler),
            Polled::Handler(None) => Next::Poll(Source::Requests),
            Polled::Requests(Some(_)) => Next::Poll(Source::Handler),
            Polled::Requests(None) => Next::Poll(Source::Downloader),
            Polled::Downloader(Some(_)) => Next::Poll(Source::Handler),
            Polled::Downloader(None) => Next::Pending,
        }
    }
}

/// Decides what to do about what was polled, and how to go on.
pub fn step<E, A, Req, B, O>(
    polled: Polled<E, A, Req, B>,
) -> (step: (Effect<Req, B, O>, Next<E, A>))
    ensures
        step.0 == polled.effect::<O>(),
        step.1 == polled.next(),
{
    match polled {
        // drain the handler first
        Polled::Handler(Some(RequestHandlerEvent::HandlerEvent(event))) => match event {
            // bubble up backfill sync request
            HandlerEvent::BackfillAction(target) => (
                Effect::Download(DownloadAction::Clear),
                Next::Ready(HandlerEvent::BackfillAction(target)),
            ),
            // bubble up the event
            HandlerEvent::Event(event) => (
                Effect::Nothing,
                Next::Ready(HandlerEvent::Event(event)),
            ),
            HandlerEvent::FatalError => (Effect::Nothing, Next::Ready(HandlerEvent::FatalError)),
        },
        // delegate download request to the downloader
        Polled::Handler(Some(RequestHandlerEvent::Download(request))) => (
            Effect::Download(DownloadAction::Download(request)),
            Next::Poll(Source::Handler),
        ),
        Polled::Handler(None) => (Effect::Nothing, Next::Poll(Source::Requests)),
        // delegate the request to the handler, and skip downloading to let it process the request
        Polled::Requests(Some(request)) => (
            Effect::Deliver(FromEngine::Request(request)),
            Next::Poll(Source::Handler),
        ),
        Polled::Requests(None) => (Effect::Nothing, Next::Poll(Source::Downloader)),
        // delegate the downloaded blocks to the handler
        Polled::Downloader(Some(DownloadOutcome::Blocks(blocks))) => (
            Effect::Deliver(FromEngine::DownloadedBlocks(blocks)),
            Next::Poll(Source::Handler),
        ),
        Polled::Downloader(Some(_)) => (Effect::Nothing, Next::Poll(Source::Handler)),
        Polled::Downloader(None) => (Effect::Nothing, Next::Pending),
    }
}

/// Whether `polls` is what was polled, one after the other, since the handler was last asked: the
/// request handler first, and each time what the step before asked for.
pub open spec fn is_run<E, A, Req, B>(polls: Seq<Polled<E, A, Req, B>>) -> bool {
    &&& polls.len() > 0
    &&& polls[0].source() == Source::Handler
    &&& forall|i: int|
        0 < i < polls.len() ==> polls[i - 1].next() == Next::<E, A>::Poll(
            (#[trigger] polls[i]).source(),
        )
}

/// The requests are only looked at when the request handler has nothing to do, and the downloader
/// only when there is no request either.
pub proof fn law_handler_goes_first<E, A, Req, B>(polls: Seq<Polled<E, A, Req, B>>, i: int)
    requires
        is_run(polls),
        0 <= i < polls.len(),
    ensures
        polls[i].source() == Source::Requests ==> i > 0 && polls[i - 1] == Polled::<
            E,
            A,
            Req,
            B,
        >::Handler(None),
        polls[i].source() == Source::Downloader ==> i > 1 && polls[i - 1] == Polled::<
            E,
            A,
            Req,
            B,
        >::Requests(None) && polls[i - 2] == Polled::<E, A, Req, B>::Handler(None),
{
    if i > 0 {
        assert(polls[i - 1].next() == Next::<E, A>::Poll(polls[i].source()));
        if i > 1 {
            assert(polls[i - 2].next() == Next::<E, A>::Poll(polls[i - 1].source()));
        }
    }
}

/// The handler reports that there is nothing only after all three sources, one after the other,
/// had nothing.
pub proof fn law_pending_means_idle<E, A, Req, B>(polls: Seq<Polled<E, A, Req, B>>)
    requires
        is_run(polls),
        polls.last().next() is Pending,
    ensures
        polls.len() >= 3,
        polls.last() == Polled::<E, A, Req, B>::Downloader(None),
        polls[polls.len() - 2] == Polled::<E, A, Req, B>::Requests(None),
        polls[polls.len() - 3] == Polled::<E, A, Req, B>::Handler(None),
{
    law_handler_goes_first(polls, polls.len() - 1);
}

/// Every event of the request handler is returned as it is, and nothing else is: the one thing
/// done beforehand is that a backfill action drops the downloads.
pub proof fn law_events_bubble_up<E, A, Req, B, O>(polled: Polled<E, A, Req, B>)
    ensures
        polled.next() matches Next::Ready(event) ==> polled == Polled::<E, A, Req, B>::Handler(
            Some(RequestHandlerEvent::HandlerEvent(event)),
        ),
        polled matches Polled::Handler(Some(RequestHandlerEvent::HandlerEvent(event)))
            ==> polled.next() == Next::Ready(event) && polled.effect::<O>() == if event
            is BackfillAction {
            Effect::<Req, B, O>::Download(DownloadAction::Clear)
        } else {
            Effect::Nothing
        },
{
}

/// Nothing that is polled gets lost: each request, each set of downloaded blocks and each request
/// for blocks is passed on, and only those are.
pub proof fn law_nothing_is_lost<E, A, Req, B, O>(polled: Polled<E, A, Req, B>)
    ensures
        polled.effect::<O>() matches Effect::Deliver(told) ==> match told {
            FromEngine::Request(request) => polled == Polled::<E, A, Req, B>::Requests(
                Some(request),
            ),
            FromEngine::DownloadedBlocks(blocks) => polled == Polled::<E, A, Req, B>::Downloader(
                Some(DownloadOutcome::Blocks(blocks)),
            ),
            FromEngine::Event(_) => false,
        },
        polled is Requests && polled->Requests_0 is Some ==> polled.effect::<O>() is Deliver,
        polled matches Polled::Downloader(Some(DownloadOutcome::Blocks(_))) ==> polled.effect::<
            O,
        >() is Deliver,
        polled matches Polled::Handler(Some(RequestHandlerEvent::Download(request)))
            ==> polled.effect::<O>() == Effect::<Req, B, O>::Download(
            DownloadAction::Download(request),
        ),
{
}

/// The kind of engine API.
#[derive(Debug, Clone, Copy, PartialEq, Eq)]
pub enum EngineApiKind {
    /// The chain contains Ethereum configuration.
    Ethereum,
    /// The chain contains Optimism configuration.
    OpStack,
}

impl Default for EngineApiKind {
    fn default() -> (kind: Self)
        ensures
            kind is Ethereum,
    {
        EngineApiKind::Ethereum
    }
}

impl EngineApiKind {
    /// Returns true if this is the ethereum variant.
    pub fn is_ethereum(&self) -> (b: bool)
        ensures
            b == (*self is Ethereum),
    {
        matches!(self, Self::Ethereum)
    }

    /// Returns true if this is the optimism variant.
    pub fn is_opstack(&self) -> (b: bool)
        ensures
            b == (*self is OpStack),
    {
        matches!(self, Self::OpStack)
    }
}

/// Events emitted by the engine tree; `C` is an event of the consensus engine, `A` a backfill
/// action.
#[derive(Debug)]
pub enum EngineApiEvent<C, A> {
    /// Event from the consensus engine.
    BeaconConsensus(C),
    /// Backfill action is needed.
    BackfillAction(A),
    /// Block download is needed.
    Download(DownloadRequest),
}

impl<C, A> EngineApiEvent<C, A> {
    /// Returns `true` if the event is a backfill action.
    pub fn is_backfill_action(&self) -> (b: bool)
        ensures
            b == (*self is BackfillAction),
    {
        matches!(self, Self::BackfillAction(_))
    }
}

impl<C, A> From<C> for EngineApiEvent<C, A> {
    fn from(event: C) -> (own: Self) {
        EngineApiEvent::BeaconConsensus(event)
    }
}

impl<C, A> FromSpecImpl<C> for EngineApiEvent<C, A> {
    open spec fn obeys_from_spec() -> bool {
        true
    }

    open spec fn from_spec(event: C) -> Self {
        EngineApiEvent::BeaconConsensus(event)
    }
}

/// What the request handler makes of an event of the engine tree; without a tree, it cannot go on.
pub open spec fn tree_event<C, A>(
    event: Option<EngineApiEvent<C, A>>,
) -> RequestHandlerEvent<C, A> {
    match event {
        None => RequestHandlerEvent::HandlerEvent(HandlerEvent::FatalError),
        Some(EngineApiEvent::BeaconConsensus(event)) => RequestHandlerEvent::HandlerEvent(
            HandlerEvent::Event(event),
        ),
        Some(EngineApiEvent::BackfillAction(action)) => RequestHandlerEvent::HandlerEvent(
            HandlerEvent::BackfillAction(action),
        ),
        Some(EngineApiEvent::Download(request)) => RequestHandlerEvent::Download(request),
    }
}

/// What the request handler makes of an event of the engine tree. `None` stands for a tree that is
/// gone.
pub fn on_tree_event<C, A>(
    event: Option<EngineApiEvent<C, A>>,
) -> (result: RequestHandlerEvent<C, A>)
    ensures
        result == tree_event(event),
{
    let event = match event {
        Some(event) => event,
        None => return RequestHandlerEvent::HandlerEvent(HandlerEvent::FatalError),
    };
    match event {
        EngineApiEvent::BeaconConsensus(event) => RequestHandlerEvent::HandlerEvent(
            HandlerEvent::Event(event),
        ),
        EngineApiEvent::BackfillAction(action) => RequestHandlerEvent::HandlerEvent(
            HandlerEvent::BackfillAction(action),
        ),
        EngineApiEvent::Download(request) => RequestHandlerEvent::Download(request),
    }
}

} // verus!
