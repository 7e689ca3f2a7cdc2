use diesis::engine::{
    on_tree_event, step, DownloadAction, DownloadOutcome, DownloadRequest, Effect, EngineApiEvent,
    EngineApiKind, EngineHandler, FromEngine, HandlerEvent, Next, Polled, RequestHandlerEvent,
    Source,
};
use diesis::primitives::B256;

type P = Polled<u8, u16, u32, u64>;
type Step = (Effect<u32, u64, ()>, Next<u8, u16>);

const HASH: B256 = B256 { bytes: [1; 32] };

#[test]
fn events_bubble_up() {
    let polled: P =
        Polled::Handler(Some(RequestHandlerEvent::HandlerEvent(HandlerEvent::Event(7))));
    let done: Step = step(polled);
    assert!(matches!(done, (Effect::Nothing, Next::Ready(HandlerEvent::Event(7)))));

    let polled: P =
        Polled::Handler(Some(RequestHandlerEvent::HandlerEvent(HandlerEvent::FatalError)));
    let done: Step = step(polled);
    assert!(matches!(done, (Effect::Nothing, Next::Ready(HandlerEvent::FatalError))));
}

#[test]
fn backfill_drops_the_downloads() {
    let polled: P =
        Polled::Handler(Some(RequestHandlerEvent::HandlerEvent(HandlerEvent::BackfillAction(9))));
    let done: Step = step(polled);
    assert!(matches!(
        done,
        (
            Effect::Download(DownloadAction::Clear),
            Next::Ready(HandlerEvent::BackfillAction(9))
        )
    ));
}

#[test]
fn downloads_are_delegated() {
    let polled: P = Polled::Handler(Some(RequestHandlerEvent::Download(
        DownloadRequest::BlockRange(HASH, 5),
    )));
    let done: Step = step(polled);
    assert!(matches!(
        done,
        (
            Effect::Download(DownloadAction::Download(DownloadRequest::BlockRange(hash, 5))),
            Next::Poll(Source::Handler)
        ) if hash == HASH
    ));
}

#[test]
fn requests_are_delivered_before_downloads() {
    let done: Step = step(Polled::Handler(None));
    assert!(matches!(done, (Effect::Nothing, Next::Poll(Source::Requests))));
    let done: Step = step(Polled::Requests(Some(3)));
    assert!(matches!(
        done,
        (Effect::Deliver(FromEngine::Request(3)), Next::Poll(Source::Handler))
    ));
    let done: Step = step(Polled::Requests(None));
    assert!(matches!(done, (Effect::Nothing, Next::Poll(Source::Downloader))));
}

#[test]
fn downloaded_blocks_are_delivered() {
    let done: Step = step(Polled::Downloader(Some(DownloadOutcome::Blocks(vec![4, 5]))));
    match done {
        (Effect::Deliver(FromEngine::DownloadedBlocks(blocks)), Next::Poll(Source::Handler)) => {
            assert_eq!(blocks, vec![4, 5]);
        }
        _ => panic!("downloaded blocks go to the handler"),
    }
    let done: Step = step(Polled::Downloader(Some(DownloadOutcome::NewDownloadStarted {
        remaining_blocks: 1,
        target: HASH,
    })));
    assert!(matches!(done, (Effect::Nothing, Next::Poll(Source::Handler))));
    let done: Step = step(Polled::Downloader(None));
    assert!(matches!(done, (Effect::Nothing, Next::Pending)));
}

#[test]
fn a_run_drains_the_handler_first() {
    // What each source has to say, the first last.
    let mut handler = vec![
        RequestHandlerEvent::HandlerEvent(HandlerEvent::Event(1)),
        RequestHandlerEvent::Download(DownloadRequest::single_block(HASH)),
    ];
    let mut requests: Vec<u32> = vec![2];
    let mut downloads = vec![DownloadOutcome::Blocks(vec![3u64])];
    let mut log: Vec<String> = Vec::new();
    let mut rounds = 0;
    while rounds < 2 {
        let mut source = Source::Handler;
        loop {
            let polled: P = match source {
                Source::Handler => Polled::Handler(handler.pop()),
                Source::Requests => Polled::Requests(requests.pop()),
                Source::Downloader => Polled::Downloader(downloads.pop()),
            };
            let (effect, next): Step = step(polled);
            match effect {
                Effect::Nothing => {}
                Effect::Deliver(FromEngine::Request(n)) => log.push(format!("request {n}")),
                Effect::Deliver(_) => log.push(format!("blocks")),
                Effect::Download(_) => log.push(format!("download")),
            }
            match next {
                Next::Poll(next) => source = next,
                Next::Ready(_) => {
                    log.push(format!("ready"));
                    break;
                }
                Next::Pending => {
                    log.push(format!("pending"));
                    break;
                }
            }
        }
        rounds += 1;
    }
    assert_eq!(log, vec!["download", "ready", "request 2", "blocks", "pending"]);
}

#[test]
fn tree_events() {
    let event: EngineApiEvent<u8, u16> = EngineApiEvent::from(1u8);
    assert!(!event.is_backfill_action());
    assert!(matches!(
        on_tree_event(Some(event)),
        RequestHandlerEvent::HandlerEvent(HandlerEvent::Event(1))
    ));
    let event: EngineApiEvent<u8, u16> = EngineApiEvent::BackfillAction(2);
    assert!(event.is_backfill_action());
    assert!(matches!(
        on_tree_event(Some(event)),
        RequestHandlerEvent::HandlerEvent(HandlerEvent::BackfillAction(2))
    ));
    let event: EngineApiEvent<u8, u16> =
        EngineApiEvent::Download(DownloadRequest::BlockRange(HASH, 8));
    assert!(!event.is_backfill_action());
    assert!(matches!(
        on_tree_event(Some(event)),
        RequestHandlerEvent::Download(DownloadRequest::BlockRange(hash, 8)) if hash == HASH
    ));
    let gone: RequestHandlerEvent<u8, u16> = on_tree_event(None);
    assert!(matches!(gone, RequestHandlerEvent::HandlerEvent(HandlerEvent::FatalError)));
}

#[test]
fn single_blocks() {
    match DownloadRequest::single_block(HASH) {
        DownloadRequest::BlockSet(hashes) => assert_eq!(hashes, vec![HASH]),
        DownloadRequest::BlockRange(..) => panic!("a set"),
    }
}

#[test]
fn kinds() {
    assert!(EngineApiKind::default().is_ethereum());
    assert!(!EngineApiKind::Ethereum.is_opstack());
    assert!(EngineApiKind::OpStack.is_opstack());
    assert!(!EngineApiKind::OpStack.is_ethereum());
}

#[test]
fn handler_parts_are_reachable() {
    let mut engine = EngineHandler::new(1u8, 2u16, 3u32);
    *engine.handler_mut() += 10;
    *engine.downloader_mut() += 10;
    *engine.incoming_requests_mut() += 10;
    assert_eq!(*engine.handler_mut(), 11);
    assert_eq!(*engine.downloader_mut(), 12);
    assert_eq!(*engine.incoming_requests_mut(), 13);
}
