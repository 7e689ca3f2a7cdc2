use diesis::big_block::{
    begin_new_payload, finish_new_payload, validate_big_block_data, BigBlockData, BigBlockMap,
    NewPayloadError, NewPayloadTimings, BASE_SEGMENT_NOT_FIRST, MISSING_BASE_SEGMENT,
    SEGMENTS_OUT_OF_ORDER,
};
use diesis::primitives::B256;

fn big_block_data(env_switches: Vec<(usize, ())>) -> BigBlockData<()> {
    BigBlockData { env_switches, prior_block_hashes: Vec::new() }
}

fn hash(n: u8) -> B256 {
    B256 { bytes: [n; 32] }
}

#[test]
fn rejects_empty_big_block_env_switches() {
    let err = validate_big_block_data(&big_block_data(Vec::new())).unwrap_err();

    assert!(err.to_string().contains("include the base segment"));
    assert_eq!(err.code, -32602);
    assert_eq!(err.message, "Invalid params");
    assert_eq!(err.data, MISSING_BASE_SEGMENT);
}

#[test]
fn rejects_big_block_env_switches_that_do_not_start_at_zero() {
    let err = validate_big_block_data(&big_block_data(vec![(1, ())])).unwrap_err();

    assert!(err.to_string().contains("transaction index 0"));
    assert_eq!(err.data, BASE_SEGMENT_NOT_FIRST);
}

#[test]
fn rejects_unordered_big_block_env_switches() {
    let err =
        validate_big_block_data(&big_block_data(vec![(0, ()), (3, ()), (3, ())])).unwrap_err();

    assert!(err.to_string().contains("strictly ordered"));
    assert_eq!(err.data, SEGMENTS_OUT_OF_ORDER);
}

#[test]
fn accepts_ordered_big_block_env_switches() {
    validate_big_block_data(&big_block_data(vec![(0, ()), (3, ()), (5, ())])).unwrap();
}

#[test]
fn data_are_pending_only_while_the_engine_works() {
    let mut pending = BigBlockMap::new();
    pending.insert(hash(9), big_block_data(vec![(0, ()), (9, ())]));

    let request = begin_new_payload::<&str, (), ()>(
        &mut pending,
        Ok(("payload", hash(1))),
        None,
        Some(false),
        Some(big_block_data(vec![(0, ()), (4, ())])),
    )
    .unwrap();
    assert_eq!(request.payload, "payload");
    assert!(request.wait_for_persistence);
    assert!(!request.wait_for_caches);
    assert_eq!(request.big_block_hash, Some(hash(1)));
    assert_eq!(pending.get(&hash(1)).unwrap().env_switches, vec![(0, ()), (4, ())]);

    let status = finish_new_payload::<u8, (), ()>(
        &mut pending,
        request.big_block_hash,
        Ok((
            5,
            NewPayloadTimings {
                latency: 7,
                persistence_wait: u64::MAX as u128 + 3,
                execution_cache_wait: Some(u64::MAX as u128),
                sparse_trie_wait: None,
            },
        )),
    )
    .unwrap();
    assert_eq!(status.status, 5);
    assert_eq!(status.latency_us, 7);
    assert_eq!(status.persistence_wait_us, 2);
    assert_eq!(status.execution_cache_wait_us, Some(u64::MAX));
    assert_eq!(status.sparse_trie_wait_us, None);
    assert!(pending.get(&hash(1)).is_none());
    assert!(pending.get(&hash(9)).is_some());
}

#[test]
fn data_are_forgotten_when_the_engine_fails() {
    let mut pending = BigBlockMap::new();
    pending.insert(hash(1), big_block_data(vec![(0, ())]));
    let result = finish_new_payload::<(), &str, ()>(&mut pending, Some(hash(1)), Err("gone"));
    assert_eq!(result.err(), Some("gone"));
    assert!(pending.get(&hash(1)).is_none());
}

#[test]
fn ordinary_payloads_leave_nothing_pending() {
    let mut pending: BigBlockMap<()> = BigBlockMap::new();
    let request =
        begin_new_payload::<u8, (), ()>(&mut pending, Ok((1, hash(1))), Some(false), None, None)
            .unwrap();
    assert!(!request.wait_for_persistence);
    assert!(request.wait_for_caches);
    assert_eq!(request.big_block_hash, None);
    assert!(pending.get(&hash(1)).is_none());
}

#[test]
fn refused_payloads_leave_nothing_pending() {
    let mut pending = BigBlockMap::new();
    let refused = begin_new_payload::<u8, &str, ()>(
        &mut pending,
        Err("undecodable"),
        None,
        None,
        Some(big_block_data(vec![(0, ())])),
    );
    assert!(matches!(refused, Err(NewPayloadError::Decode("undecodable"))));
    let refused = begin_new_payload::<u8, &str, ()>(
        &mut pending,
        Ok((1, hash(1))),
        None,
        None,
        Some(big_block_data(vec![(2, ())])),
    );
    match refused {
        Err(NewPayloadError::InvalidBigBlockData(error)) => {
            assert_eq!(error.data, BASE_SEGMENT_NOT_FIRST)
        }
        _ => panic!("segments that do not start at zero"),
    }
    assert!(pending.get(&hash(1)).is_none());
}

#[test]
fn later_data_replace_earlier_ones() {
    let mut pending = BigBlockMap::new();
    pending.insert(hash(1), big_block_data(vec![(0, ())]));
    pending.insert(hash(2), big_block_data(vec![(0, ()), (1, ())]));
    pending.insert(hash(1), big_block_data(vec![(0, ()), (1, ()), (2, ())]));
    assert_eq!(pending.get(&hash(1)).unwrap().env_switches.len(), 3);
    assert_eq!(pending.get(&hash(2)).unwrap().env_switches.len(), 2);
    pending.remove(&hash(1));
    assert!(pending.get(&hash(1)).is_none());
    assert!(pending.get(&hash(2)).is_some());
}
