//! Acknowledged direct insertion of executed blocks into the engine tree.
//!
//! A permit is retained for as long as a request is outstanding, whichever queue it stands in. This
//! bounds the outstanding work end to end.

use vstd::prelude::*;
use vstd::std_specs::convert::FromSpecImpl;

use crate::engine::{BlockNumHash, FromEngine};
use crate::primitives::B256;

verus! {

/// Reason a conditional executed-block insertion was rejected.
#[allow(inconsistent_fields)]
#[derive(Debug, Clone, Copy, PartialEq, Eq)]
pub enum ExecutedBlockInsertError {
    /// The bounded direct-insert path has reached its end-to-end capacity.
    QueueFull {
        /// Configured outstanding-request limit.
        capacity: usize,
    },
    /// The engine ingress or engine tree is no longer available.
    EngineUnavailable,
    /// The tree-side acknowledgement was dropped, so the admission outcome is ambiguous.
    AcknowledgementDropped,
    /// The canonical head changed before the engine tree handled the request.
    CanonicalHeadMismatch {
        /// Head supplied by the caller.
        expected: BlockNumHash,
        /// Head observed by the engine tree.
        actual: BlockNumHash,
    },
    /// The expected canonical head cannot have a child because its number is already maximal.
    CanonicalHeadNumberOverflow {
        /// Canonical head whose number overflowed.
        head: BlockNumHash,
    },
    /// The submitted block number is not exactly one greater than the canonical head.
    BlockNumberMismatch {
        /// Required child block number.
        expected: u64,
        /// Submitted block number.
        actual: u64,
    },
    /// The submitted block does not name the canonical head as its parent.
    ParentHashMismatch {
        /// Required parent hash.
        expected: B256,
        /// Submitted parent hash.
        actual: B256,
    },
}

/// Permission to have a request outstanding. It can only be had from a sender, and is handed back
/// to it once the request is done with.
#[derive(Debug)]
pub struct InsertPermit {
    held: (),
}

/// An executed block whose admission is conditional on an exact canonical head.
#[derive(Debug)]
pub struct ExecutedBlockInsertRequest<X> {
    expected_canonical_head: BlockNumHash,
    block: X,
    permit: InsertPermit,
}

impl<X> ExecutedBlockInsertRequest<X> {
    /// The head that is expected, and the block.
    pub closed spec fn content(self) -> (BlockNumHash, X) {
        (self.expected_canonical_head, self.block)
    }

    /// Puts a request together.
    fn new(expected_canonical_head: BlockNumHash, block: X, permit: InsertPermit) -> (request: Self)
        ensures
            request.content() == (expected_canonical_head, block),
    {
        Self { expected_canonical_head, block, permit }
    }

    /// Returns the canonical head that must still be current when the request is handled.
    pub fn expected_canonical_head(&self) -> (head: BlockNumHash)
        ensures
            head == self.content().0,
    {
        self.expected_canonical_head
    }

    /// Returns the executed block awaiting admission.
    pub fn block(&self) -> (block: &X)
        ensures
            *block == self.content().1,
    {
        &self.block
    }

    /// Splits the request into the head that is expected, the block, and the permit, which is to be
    /// handed back before the request is answered.
    pub fn into_parts(self) -> (parts: (BlockNumHash, X, InsertPermit))
        ensures
            (parts.0, parts.1) == self.content(),
    {
        (self.expected_canonical_head, self.block, self.permit)
    }

    /// Rejects the request: the permit, which is to be handed back first, and the answer.
    pub fn reject(self, error: ExecutedBlockInsertError) -> (rejected: (
        InsertPermit,
        Result<(), ExecutedBlockInsertError>,
    ))
        ensures
            rejected.1 == Err::<(), ExecutedBlockInsertError>(error),
    {
        let (_, _, permit) = self.into_parts();
        (permit, Err(error))
    }
}

/// Bounded handle for acknowledged direct insertion into the engine tree.
#[derive(Debug)]
pub struct ExecutedBlockInsertSender {
    capacity: usize,
    outstanding: usize,
}

impl ExecutedBlockInsertSender {
    /// How many requests may be outstanding.
    pub closed spec fn spec_capacity(self) -> nat {
        self.capacity as nat
    }

    /// How many requests are outstanding.
    pub closed spec fn outstanding(self) -> nat {
        self.outstanding as nat
    }

    /// There is some capacity, and it is not exceeded.
    #[verifier::type_invariant]
    pub open spec fn well_formed(self) -> bool {
        0 < self.spec_capacity() && self.outstanding() <= self.spec_capacity() <= usize::MAX
    }

    /// Creates a sender with an end-to-end outstanding-request limit.
    pub fn new(capacity: usize) -> (sender: Self)
        requires
            capacity > 0,
        ensures
            sender.spec_capacity() == capacity,
            sender.outstanding() == 0,
    {
        Self { capacity, outstanding: 0 }
    }

    /// Admits a request to insert an executed block on top of the expected head. Capacity
    /// exhaustion is reported immediately.
    pub fn insert<X>(&mut self, expected_canonical_head: BlockNumHash, block: X) -> (result: Result<
        ExecutedBlockInsertRequest<X>,
        ExecutedBlockInsertError,
    >)
        ensures
            final(self).spec_capacity() == old(self).spec_capacity(),
            final(self).outstanding() == outstanding_next(
                old(self).spec_capacity(),
                old(self).outstanding(),
                LedgerEvent::Insert,
            ),
            if old(self).outstanding() < old(self).spec_capacity() {
                result is Ok && result->Ok_0.content() == (expected_canonical_head, block)
            } else {
                result matches Err(ExecutedBlockInsertError::QueueFull { capacity }) && capacity
                    == old(self).spec_capacity()
            },
    {
        proof {
            use_type_invariant(&*self);
        }
        if self.outstanding == self.capacity {
            return Err(ExecutedBlockInsertError::QueueFull { capacity: self.capacity });
        }
        self.outstanding = self.outstanding + 1;
        let permit = InsertPermit { held: () };
        Ok(ExecutedBlockInsertRequest::new(expected_canonical_head, block, permit))
    }

    /// Takes back the permit of a request that is done with.
    pub fn release(&mut self, permit: InsertPermit)
        requires
            old(self).outstanding() > 0,
        ensures
            final(self).spec_capacity() == old(self).spec_capacity(),
            final(self).outstanding() == outstanding_next(
                old(self).spec_capacity(),
                old(self).outstanding(),
                LedgerEvent::Release,
            ),
    {
        proof {
            use_type_invariant(&*self);
        }
        self.outstanding = self.outstanding - 1;
    }

    /// Maximum number of direct-insert requests that may be outstanding end to end.
    pub fn capacity(&self) -> (n: usize)
        ensures
            n == self.spec_capacity(),
    {
        self.capacity
    }

    /// Number of requests that can be admitted without waiting for prior work to complete.
    pub fn available_capacity(&self) -> (n: usize)
        ensures
            n == self.spec_capacity() - self.outstanding(),
    {
        proof {
            use_type_invariant(self);
        }
        self.capacity - self.outstanding
    }
}

/// What the caller learns of an admitted request: whether it could be enqueued, and what the
/// acknowledgement was, if there was one.
pub open spec fn outcome(
    enqueued: bool,
    acknowledgement: Option<Result<(), ExecutedBlockInsertError>>,
) -> Result<(), ExecutedBlockInsertError> {
    if !enqueued {
        Err(ExecutedBlockInsertError::EngineUnavailable)
    } else {
        match acknowledgement {
            None => Err(ExecutedBlockInsertError::AcknowledgementDropped),
            Some(answer) => answer,
        }
    }
}

/// What the caller learns of an admitted request.
pub fn insert_outcome(
    enqueued: bool,
    acknowledgement: Option<Result<(), ExecutedBlockInsertError>>,
) -> (result: Result<(), ExecutedBlockInsertError>)
    ensures
        result == outcome(enqueued, acknowledgement),
{
    if !enqueued {
        return Err(ExecutedBlockInsertError::EngineUnavailable);
    }
    match acknowledgement {
        Some(answer) => answer,
        None => Err(ExecutedBlockInsertError::AcknowledgementDropped),
    }
}

/// The request variants that the engine API handler can receive; `M` is a message of the consensus
/// engine, `X` an executed block.
#[derive(Debug)]
pub enum EngineApiRequest<M, X> {
    /// A request received from the consensus engine.
    Beacon(M),
    /// Request to insert an already executed block, e.g. via payload building.
    InsertExecutedBlock(X),
    /// Request to insert an already executed block only if it is the direct child of the expected
    /// canonical head.
    InsertExecutedBlockIfCanonical(ExecutedBlockInsertRequest<X>),
}

impl<M, X> From<M> for EngineApiRequest<M, X> {
    fn from(message: M) -> (request: Self) {
        EngineApiRequest::Beacon(message)
    }
}

impl<M, X> FromSpecImpl<M> for EngineApiRequest<M, X> {
    open spec fn obeys_from_spec() -> bool {
        true
    }

    open spec fn from_spec(message: M) -> Self {
        EngineApiRequest::Beacon(message)
    }
}

impl<M, X, B, O> From<EngineApiRequest<M, X>> for FromEngine<EngineApiRequest<M, X>, B, O> {
    fn from(request: EngineApiRequest<M, X>) -> (event: Self) {
        FromEngine::Request(request)
    }
}

impl<M, X, B, O> FromSpecImpl<EngineApiRequest<M, X>>
    for FromEngine<EngineApiRequest<M, X>, B, O> {
    open spec fn obeys_from_spec() -> bool {
        true
    }

    open spec fn from_spec(request: EngineApiRequest<M, X>) -> Self {
        FromEngine::Request(request)
    }
}

/// What is to be done about an event that could not be sent to the engine tree: a request that
/// awaits an acknowledgement is rejected, anything else is dropped.
pub fn on_undelivered<M, X, B, O>(
    event: FromEngine<EngineApiRequest<M, X>, B, O>,
) -> (rejected: Option<(InsertPermit, Result<(), ExecutedBlockInsertError>)>)
    ensures
        match event {
            FromEngine::Request(EngineApiRequest::InsertExecutedBlockIfCanonical(_)) => rejected
                is Some && rejected->Some_0.1 == Err::<(), ExecutedBlockInsertError>(
                ExecutedBlockInsertError::EngineUnavailable,
            ),
            _ => rejected is None,
        },
{
    match event {
        FromEngine::Request(EngineApiRequest::InsertExecutedBlockIfCanonical(request)) => Some(
            request.reject(ExecutedBlockInsertError::EngineUnavailable),
        ),
        _ => None,
    }
}

/// Something that happens to a sender.
pub enum LedgerEvent {
    /// A caller asks for a request to be admitted.
    Insert,
    /// The permit of an outstanding request is handed back.
    Release,
}

/// How many requests are outstanding after an event, of `n` before it.
pub open spec fn outstanding_next(capacity: nat, n: nat, event: LedgerEvent) -> nat {
    match event {
        LedgerEvent::Insert => if n < capacity {
            n + 1
        } else {
            n
        },
        LedgerEvent::Release => (n - 1) as nat,
    }
}

/// How many requests are outstanding after the events, from none at the start.
pub open spec fn outstanding_after(capacity: nat, events: Seq<LedgerEvent>) -> nat
    decreases events.len(),
{
    if events.len() == 0 {
        0
    } else {
        outstanding_next(
            capacity,
            outstanding_after(capacity, events.drop_last()),
            events.last(),
        )
    }
}

/// Whether a permit is handed back only while one is out.
pub open spec fn permits_are_returned_once(capacity: nat, events: Seq<LedgerEvent>) -> bool {
    forall|i: int|
        0 <= i < events.len() && (#[trigger] events[i]) is Release ==> outstanding_after(
            capacity,
            events.take(i),
        ) > 0
}

/// How many requests the events admit.
pub open spec fn admitted(capacity: nat, events: Seq<LedgerEvent>) -> nat
    decreases events.len(),
{
    if events.len() == 0 {
        0
    } else {
        let before = admitted(capacity, events.drop_last());
        if events.last() is Insert && outstanding_after(capacity, events.drop_last()) < capacity {
            before + 1
        } else {
            before
        }
    }
}

/// How many permits the events hand back.
pub open spec fn released(events: Seq<LedgerEvent>) -> nat
    decreases events.len(),
{
    if events.len() == 0 {
        0
    } else {
        released(events.drop_last()) + if events.last() is Release {
            1nat
        } else {
            0nat
        }
    }
}

/// However requests come and go, the limit is never exceeded and no capacity leaks: what is
/// outstanding is what was admitted and not handed back. Once every permit is back, the whole
/// capacity is available again.
pub proof fn law_capacity_is_conserved(capacity: nat, events: Seq<LedgerEvent>)
    requires
        permits_are_returned_once(capacity, events),
    ensures
        outstanding_after(capacity, events) <= capacity,
        outstanding_after(capacity, events) + released(events) == admitted(capacity, events),
        admitted(capacity, events) == released(events) ==> outstanding_after(capacity, events) == 0,
    decreases events.len(),
{
    if events.len() > 0 {
        let front = events.drop_last();
        assert forall|i: int| 0 <= i < front.len() && (#[trigger] front[i]) is Release implies
            outstanding_after(capacity, front.take(i)) > 0 by {
            assert(events[i] is Release);
            assert(front.take(i) =~= events.take(i));
        }
        law_capacity_is_conserved(capacity, front);
        if events.last() is Release {
            assert(events[events.len() - 1] is Release);
            assert(events.take(events.len() - 1) =~= front);
        }
    }
}

} // verus!
