use diesis::engine::{BlockNumHash, FromEngine, FromOrchestrator};
use diesis::insert::{
    insert_outcome, on_undelivered, EngineApiRequest, ExecutedBlockInsertError,
    ExecutedBlockInsertRequest, ExecutedBlockInsertSender,
};
use diesis::primitives::B256;

/// The block is its number and the hash of its parent.
type Block = (u64, B256);
type Event = FromEngine<EngineApiRequest<(), Block>, (), ()>;

fn head() -> BlockNumHash {
    BlockNumHash { number: 0, hash: B256 { bytes: [0x5a; 32] } }
}

fn request_insert(
    sender: &mut ExecutedBlockInsertSender,
) -> Result<ExecutedBlockInsertRequest<Block>, ExecutedBlockInsertError> {
    sender.insert(head(), (1, head().hash))
}

#[test]
fn sixty_fifth_request_is_full_after_tokio_to_crossbeam_forwarding() {
    const CAPACITY: usize = 64;
    let mut sender = ExecutedBlockInsertSender::new(CAPACITY);

    let (to_tree, from_ingress) = crossbeam_channel::unbounded::<Event>();
    for _ in 0..CAPACITY {
        let request = request_insert(&mut sender).expect("request reaches Tokio ingress");
        to_tree
            .send(FromEngine::Request(EngineApiRequest::InsertExecutedBlockIfCanonical(request)))
            .expect("request reaches the engine tree queue");
    }

    assert_eq!(sender.available_capacity(), 0);
    assert_eq!(
        request_insert(&mut sender).err(),
        Some(ExecutedBlockInsertError::QueueFull { capacity: CAPACITY })
    );
    assert_eq!(sender.available_capacity(), 0);

    // The tree goes away with the requests: each permit comes back, no answer ever does.
    for _ in 0..CAPACITY {
        match from_ingress.recv() {
            Ok(FromEngine::Request(EngineApiRequest::InsertExecutedBlockIfCanonical(request))) => {
                let (_, _, permit) = request.into_parts();
                sender.release(permit);
            }
            _ => panic!("an admitted request"),
        }
        assert_eq!(
            insert_outcome(true, None),
            Err(ExecutedBlockInsertError::AcknowledgementDropped)
        );
    }
    assert_eq!(sender.available_capacity(), CAPACITY);
}

#[test]
fn cancellation_before_enqueue_releases_permit() {
    let mut sender = ExecutedBlockInsertSender::new(2);
    let first = request_insert(&mut sender).expect("first request was enqueued");
    let second = request_insert(&mut sender).unwrap();
    assert_eq!(sender.available_capacity(), 0);

    // The second is cancelled before it finds room in the queue.
    sender.release(second.into_parts().2);
    assert_eq!(sender.available_capacity(), 1);

    sender.release(first.into_parts().2);
    assert_eq!(insert_outcome(true, None), Err(ExecutedBlockInsertError::AcknowledgementDropped));
    assert_eq!(sender.available_capacity(), 2);
}

#[test]
fn cancellation_after_enqueue_releases_when_request_finishes() {
    let mut sender = ExecutedBlockInsertSender::new(1);
    let request = request_insert(&mut sender).expect("request was enqueued");
    // The caller is gone; the request stays in the queue.
    assert_eq!(sender.available_capacity(), 0);

    sender.release(request.into_parts().2);
    assert_eq!(sender.available_capacity(), 1);
}

#[test]
fn tree_completion_releases_capacity_before_ack_is_consumed() {
    let mut sender = ExecutedBlockInsertSender::new(1);
    let request = request_insert(&mut sender).expect("first request was enqueued");
    let (_, _, permit) = request.into_parts();
    sender.release(permit);

    assert_eq!(sender.available_capacity(), 1);
    assert_eq!(insert_outcome(true, Some(Ok(()))), Ok(()));

    let request = request_insert(&mut sender).expect("next request admitted at capacity one");
    let (permit, answer) = request.reject(ExecutedBlockInsertError::EngineUnavailable);
    sender.release(permit);
    assert_eq!(
        insert_outcome(true, Some(answer)),
        Err(ExecutedBlockInsertError::EngineUnavailable)
    );
}

#[test]
fn closed_tokio_ingress_is_typed_and_leak_free() {
    let mut sender = ExecutedBlockInsertSender::new(1);
    let request = request_insert(&mut sender).unwrap();
    // The queue hands the request back.
    sender.release(request.into_parts().2);

    assert_eq!(insert_outcome(false, None), Err(ExecutedBlockInsertError::EngineUnavailable));
    assert_eq!(sender.available_capacity(), 1);
}

#[test]
fn closed_crossbeam_tree_ingress_is_typed_and_leak_free() {
    let mut sender = ExecutedBlockInsertSender::new(1);
    let request = request_insert(&mut sender).expect("request was enqueued");

    let (to_tree, tree_rx) = crossbeam_channel::unbounded::<Event>();
    drop(tree_rx);
    let undelivered = to_tree
        .send(FromEngine::Request(EngineApiRequest::InsertExecutedBlockIfCanonical(request)))
        .unwrap_err();
    let (permit, answer) = on_undelivered(undelivered.0).unwrap();
    sender.release(permit);

    assert_eq!(
        insert_outcome(true, Some(answer)),
        Err(ExecutedBlockInsertError::EngineUnavailable)
    );
    assert_eq!(sender.available_capacity(), 1);
}

#[test]
fn requests_carry_head_and_block() {
    let mut sender = ExecutedBlockInsertSender::new(3);
    assert_eq!(sender.capacity(), 3);
    let request = request_insert(&mut sender).unwrap();
    assert_eq!(request.expected_canonical_head(), head());
    assert_eq!(*request.block(), (1, head().hash));
    let (expected, block, _) = request.into_parts();
    assert_eq!((expected, block), (head(), (1, head().hash)));
    assert_eq!(sender.capacity(), 3);
}

#[test]
fn other_undelivered_events_are_dropped() {
    let beacon: Event = EngineApiRequest::from(()).into();
    assert!(matches!(beacon, FromEngine::Request(EngineApiRequest::Beacon(()))));
    assert!(on_undelivered(beacon).is_none());
    let insert: Event = EngineApiRequest::InsertExecutedBlock((1, head().hash)).into();
    assert!(on_undelivered(insert).is_none());
    let blocks: Event = FromEngine::DownloadedBlocks(vec![()]);
    assert!(on_undelivered(blocks).is_none());
    let event: Event = FromOrchestrator(()).into();
    assert!(matches!(event, FromEngine::Event(FromOrchestrator(()))));
    assert!(on_undelivered(event).is_none());
}

#[test]
fn answers_are_passed_on() {
    let head = head();
    for error in [
        ExecutedBlockInsertError::CanonicalHeadMismatch { expected: head, actual: head },
        ExecutedBlockInsertError::CanonicalHeadNumberOverflow { head },
        ExecutedBlockInsertError::BlockNumberMismatch { expected: 1, actual: 2 },
        ExecutedBlockInsertError::ParentHashMismatch { expected: head.hash, actual: head.hash },
    ] {
        assert_eq!(insert_outcome(true, Some(Err(error))), Err(error));
    }
}
