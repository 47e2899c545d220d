use monitoring_client::wait::{
    await_finalization, check_transaction, wait_message_processing, BoundedWait, FetchItem,
    FetchObservation, MessageId, Observation, ProbeError, ProcessingStatus, StatusEvent,
    StreamItem, TransactionRecord, REQUEST_TIMEOUT,
};

fn id(n: u8) -> MessageId {
    MessageId { bytes: [n; 32] }
}

fn status(waited: u64, n: u8, status: ProcessingStatus) -> Observation {
    Observation { waited, item: StreamItem::Status(StatusEvent { message_id: id(n), status }) }
}

fn failure(waited: u64, cause: &str) -> Observation {
    Observation { waited, item: StreamItem::Failure(cause.to_string()) }
}

fn record(n: u8, aborted: bool) -> TransactionRecord {
    TransactionRecord { id: id(n), aborted, details: "{\n  \"aborted\": true\n}".to_string() }
}

#[test]
fn returns_the_first_finalized_identity() {
    let stream = vec![
        status(1, 1, ProcessingStatus::Queued),
        status(59, 1, ProcessingStatus::Processing),
        status(60, 2, ProcessingStatus::Finalized),
        status(1, 3, ProcessingStatus::Finalized),
    ];
    assert!(matches!(await_finalization(60, &stream), Ok(found) if found == id(2)));
}

#[test]
fn slow_but_steady_stream_never_times_out() {
    let mut stream = Vec::new();
    for _ in 0..50 {
        stream.push(status(60, 1, ProcessingStatus::Processing));
    }
    stream.push(status(60, 9, ProcessingStatus::Finalized));
    assert!(matches!(await_finalization(60, &stream), Ok(found) if found == id(9)));
}

#[test]
fn a_gap_over_the_timeout_is_a_timeout() {
    let stream = vec![
        status(10, 1, ProcessingStatus::Queued),
        status(61, 1, ProcessingStatus::Finalized),
    ];
    assert!(matches!(await_finalization(60, &stream), Err(ProbeError::Timeout)));
}

#[test]
fn a_late_first_event_is_a_timeout() {
    let stream = vec![status(61, 1, ProcessingStatus::Finalized)];
    assert!(matches!(await_finalization(60, &stream), Err(ProbeError::Timeout)));
    let late_error = vec![failure(100, "boom")];
    assert!(matches!(await_finalization(60, &late_error), Err(ProbeError::Timeout)));
}

#[test]
fn a_stream_that_ends_early_has_no_finalization() {
    let empty: Vec<Observation> = Vec::new();
    assert!(matches!(await_finalization(60, &empty), Err(ProbeError::NoFinalization)));
    let stream = vec![
        status(1, 1, ProcessingStatus::Queued),
        status(1, 1, ProcessingStatus::Refused),
        status(1, 1, ProcessingStatus::Unknown),
        status(1, 1, ProcessingStatus::Preliminary),
        status(1, 1, ProcessingStatus::Proposed),
        status(1, 1, ProcessingStatus::Transiting),
    ];
    assert!(matches!(await_finalization(60, &stream), Err(ProbeError::NoFinalization)));
}

#[test]
fn a_source_error_is_told_apart_from_a_timeout() {
    let stream = vec![
        status(1, 1, ProcessingStatus::Queued),
        failure(2, "connection reset"),
        status(1, 1, ProcessingStatus::Finalized),
    ];
    match await_finalization(60, &stream) {
        Err(ProbeError::Transport(message)) => {
            assert_eq!(message, "error next state getting: connection reset")
        }
        other => panic!("unexpected: {:?}", other),
    }
}

#[test]
fn zero_timeout_accepts_only_immediate_events() {
    assert!(matches!(
        await_finalization(0, &vec![status(0, 4, ProcessingStatus::Finalized)]),
        Ok(found) if found == id(4)
    ));
    assert!(matches!(
        await_finalization(0, &vec![status(1, 4, ProcessingStatus::Finalized)]),
        Err(ProbeError::Timeout)
    ));
}

#[test]
fn observe_decides_one_event_at_a_time() {
    let wait = BoundedWait::new(REQUEST_TIMEOUT);
    assert_eq!(wait.timeout, 60);
    assert!(wait.observe(&status(60, 1, ProcessingStatus::Processing)).is_none());
    assert!(matches!(
        wait.observe(&status(60, 1, ProcessingStatus::Finalized)),
        Some(Ok(found)) if found == id(1)
    ));
    assert!(matches!(
        wait.observe(&status(61, 1, ProcessingStatus::Processing)),
        Some(Err(ProbeError::Timeout))
    ));
    assert!(matches!(wait.observe(&failure(0, "x")), Some(Err(ProbeError::Transport(_)))));
    assert!(matches!(wait.closed(), Err(ProbeError::NoFinalization)));
}

#[test]
fn aborted_transaction_is_an_error_with_the_record() {
    match check_transaction(record(5, true)) {
        Err(ProbeError::TransactionAborted(r)) => {
            assert_eq!(r.id, id(5));
            assert!(r.aborted);
        }
        other => panic!("unexpected: {:?}", other),
    }
    match check_transaction(record(6, false)) {
        Ok(r) => assert_eq!(r.id, id(6)),
        other => panic!("unexpected: {:?}", other),
    }
}

#[test]
fn fetch_answers_are_classified() {
    let wait = BoundedWait::new(60);
    let loaded = Some(FetchObservation { waited: 60, item: FetchItem::Loaded(record(1, false)) });
    assert!(matches!(wait.conclude(loaded), Ok(r) if r.id == id(1)));
    let aborted = Some(FetchObservation { waited: 3, item: FetchItem::Loaded(record(1, true)) });
    assert!(matches!(wait.conclude(aborted), Err(ProbeError::TransactionAborted(_))));
    let late = Some(FetchObservation { waited: 61, item: FetchItem::Loaded(record(1, false)) });
    assert!(matches!(wait.conclude(late), Err(ProbeError::Timeout)));
    let missing = Some(FetchObservation { waited: 1, item: FetchItem::Missing });
    match wait.conclude(missing) {
        Err(ProbeError::Transport(m)) => assert_eq!(m, "Error unwrap returned Transaction"),
        other => panic!("unexpected: {:?}", other),
    }
    let failed = Some(FetchObservation { waited: 1, item: FetchItem::Failure("db down".to_string()) });
    match wait.conclude(failed) {
        Err(ProbeError::Transport(m)) => assert_eq!(m, "Error while loading Transaction: db down"),
        other => panic!("unexpected: {:?}", other),
    }
    match wait.conclude(None) {
        Err(ProbeError::Transport(m)) => {
            assert_eq!(m, "Error unwrap stream next while loading Transaction")
        }
        other => panic!("unexpected: {:?}", other),
    }
}

#[test]
fn fetch_names_its_subject() {
    let wait = BoundedWait::new(60);
    let loaded = Some(FetchObservation { waited: 2, item: FetchItem::Loaded(17u32) });
    assert!(matches!(wait.fetch(loaded, "Contract"), Ok(17)));
    let none: Option<FetchObservation<u32>> = None;
    match wait.fetch(none, "Contract") {
        Err(ProbeError::Transport(m)) => {
            assert_eq!(m, "Error unwrap stream next while loading Contract")
        }
        other => panic!("unexpected: {:?}", other),
    }
    let missing: Option<FetchObservation<u32>> =
        Some(FetchObservation { waited: 2, item: FetchItem::Missing });
    match wait.fetch(missing, "Contract") {
        Err(ProbeError::Transport(m)) => assert_eq!(m, "Error unwrap returned Contract"),
        other => panic!("unexpected: {:?}", other),
    }
    let failed: Option<FetchObservation<u32>> =
        Some(FetchObservation { waited: 2, item: FetchItem::Failure("nope".to_string()) });
    match wait.fetch(failed, "Contract") {
        Err(ProbeError::Transport(m)) => assert_eq!(m, "Error while loading Contract: nope"),
        other => panic!("unexpected: {:?}", other),
    }
}

#[test]
fn two_phase_wait() {
    let finalized = vec![status(1, 1, ProcessingStatus::Finalized)];
    let answer = || Some(FetchObservation { waited: 1, item: FetchItem::Loaded(record(1, false)) });
    assert!(matches!(wait_message_processing(60, &finalized, answer()), Ok(r) if r.id == id(1)));
    let stalled = vec![status(61, 1, ProcessingStatus::Finalized)];
    assert!(matches!(
        wait_message_processing(60, &stalled, answer()),
        Err(ProbeError::Timeout)
    ));
    let pending = vec![status(1, 1, ProcessingStatus::Processing)];
    assert!(matches!(
        wait_message_processing(60, &pending, answer()),
        Err(ProbeError::NoFinalization)
    ));
    let aborted = Some(FetchObservation { waited: 1, item: FetchItem::Loaded(record(1, true)) });
    assert!(matches!(
        wait_message_processing(60, &finalized, aborted),
        Err(ProbeError::TransactionAborted(_))
    ));
}

#[test]
fn error_messages() {
    assert_eq!(ProbeError::Timeout.message(), "Error: no event within the timeout");
    assert_eq!(ProbeError::NoFinalization.message(), "Error: no transaction id");
    assert_eq!(
        ProbeError::TransactionAborted(record(1, true)).message(),
        "transaction aborted!\n\n{\n  \"aborted\": true\n}"
    );
    assert_eq!(ProbeError::Transport("as it came".to_string()).message(), "as it came");
}
