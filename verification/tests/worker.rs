use axelar_solana::cancellation::Scope;
use axelar_solana::message::{CallContract, GatewayEvent, SolanaTransaction};
use axelar_solana::sentinel::{
    SentinelError, TransactionRetrieverError, TransactionScannerMessage,
};
use axelar_solana::worker::{Stage, WorkAction, WorkEvent, Worker};

type Event = WorkEvent<&'static str>;
type Action = WorkAction<&'static str>;

fn call(destination_chain: &[u8]) -> Option<GatewayEvent> {
    Some(GatewayEvent::CallContract(CallContract {
        sender: [1; 32],
        destination_chain: destination_chain.to_vec(),
        destination_address: vec![2],
        payload: vec![3],
    }))
}

fn fetched(logs: Vec<Option<GatewayEvent>>) -> Event {
    WorkEvent::Fetched(Ok(Ok(SolanaTransaction { signature: [0; 64], logs })))
}

fn id(index: usize) -> String {
    format!("solana:{}:{}", "1".repeat(64), index)
}

fn resolving() -> Worker {
    let received: Event = WorkEvent::Received(TransactionScannerMessage::Message);
    let (worker, action) = Worker::new().step("solana", received);
    assert_eq!(action, Action::AwaitFetch);
    assert_eq!(worker.stage, Stage::Resolving);
    worker
}

fn ends_with(action: Action, expected: SentinelError<&'static str>) {
    assert_eq!(action, WorkAction::Return { cancel: Scope::Sentinel, error: expected });
}

#[test]
fn a_new_worker_listens() {
    assert_eq!(Worker::new(), Worker { scanner_running: true, stage: Stage::Listening });
}

#[test]
fn cancellation_while_listening() {
    let (worker, action) = Worker::new().step("solana", Event::Cancelled);
    assert_eq!(worker.stage, Stage::Stopped);
    ends_with(action, SentinelError::Stopped);
}

#[test]
fn closed_channel_ends_the_work() {
    let (worker, action) = Worker::new().step("solana", Event::ChannelClosed);
    assert_eq!(worker.stage, Stage::Stopped);
    ends_with(action, SentinelError::TransactionScannerChannelClosed);
}

#[test]
fn finished_scanner_is_left_alone() {
    let (worker, action) = Worker::new().step("solana", Event::ScannerFinished);
    assert_eq!(action, WorkAction::Listen { drive_scanner: false });
    assert_eq!(worker, Worker { scanner_running: false, stage: Stage::Listening });
    let received: Event = WorkEvent::Received(TransactionScannerMessage::Message);
    let (worker, _) = worker.step("solana", received);
    let (worker, action) = worker.step("solana", fetched(vec![]));
    assert_eq!(action, WorkAction::Listen { drive_scanner: false });
    let (_, action) = worker.step("solana", Event::ChannelClosed);
    ends_with(action, SentinelError::TransactionScannerChannelClosed);
}

#[test]
fn terminated_scanner_ends_the_work() {
    let event = WorkEvent::Received(TransactionScannerMessage::Terminated("rpc"));
    let (_, action) = Worker::new().step("solana", event);
    ends_with(action, SentinelError::TransactionScannerTerminated("rpc"));
}

#[test]
fn cancellation_while_resolving() {
    let (worker, action) = resolving().step("solana", Event::Cancelled);
    assert_eq!(worker.stage, Stage::Stopped);
    ends_with(action, SentinelError::Stopped);
}

#[test]
fn failed_fetch_task_ends_the_work() {
    let (_, action) = resolving().step("solana", WorkEvent::Fetched(Err("join")));
    ends_with(action, SentinelError::FetchTaskFailed("join"));
}

#[test]
fn non_fatal_error_goes_on() {
    let event = WorkEvent::Fetched(Ok(Err(TransactionRetrieverError::NonFatal("x"))));
    let (worker, action) = resolving().step("solana", event);
    assert_eq!(worker, Worker::new());
    assert_eq!(action, WorkAction::Listen { drive_scanner: true });
}

#[test]
fn fatal_error_ends_the_work() {
    let event = WorkEvent::Fetched(Ok(Err(TransactionRetrieverError::Fatal("x"))));
    let (_, action) = resolving().step("solana", event);
    ends_with(action, SentinelError::TransactionRetriever("x"));
}

#[test]
fn deliveries_in_log_order() {
    let mut sent = Vec::new();
    let logs = vec![None, call(b"a"), None, call(b"b"), call(b"c"), None];
    let (mut worker, mut action) = resolving().step("solana", fetched(logs));
    while let WorkAction::Send(delivery) = action {
        sent.push((delivery.message.id, delivery.message.destination_chain));
        assert!(worker.handles(&Event::Sent(true)));
        (worker, action) = worker.step("solana", Event::Sent(true));
    }
    assert_eq!(
        sent,
        vec![
            (id(1), "a".to_string()),
            (id(3), "b".to_string()),
            (id(4), "c".to_string()),
        ]
    );
    assert_eq!(action, WorkAction::Listen { drive_scanner: true });
    assert_eq!(worker, Worker::new());
}

#[test]
fn refused_message_ends_the_work() {
    let (worker, _) = resolving().step("solana", fetched(vec![call(b"a"), None, call(b"b")]));
    let (worker, _) = worker.step("solana", Event::Sent(true));
    let (worker, action) = worker.step("solana", Event::Sent(false));
    assert_eq!(worker.stage, Stage::Stopped);
    ends_with(action, SentinelError::SendMessageError(id(2)));
}

#[test]
fn undecodable_call_ends_the_work_after_earlier_deliveries() {
    let logs = vec![call(b"a"), call(&[0xfe]), call(b"b")];
    let (worker, action) = resolving().step("solana", fetched(logs));
    assert!(matches!(action, WorkAction::Send(delivery) if delivery.message.id == id(0)));
    let (worker, action) = worker.step("solana", Event::Sent(true));
    assert_eq!(worker.stage, Stage::Stopped);
    ends_with(action, SentinelError::ByteVecParsing(vec![0xfe]));
}

#[test]
fn unhandled_events_are_told_beforehand() {
    let other = Some(GatewayEvent::Other);
    assert!(!resolving().handles(&fetched(vec![None, other])));
    let transferred = Some(GatewayEvent::OperatorshipTransferred);
    let (worker, _) = resolving().step("solana", fetched(vec![call(b"a"), transferred]));
    assert!(!worker.handles(&Event::Sent(true)));
    assert!(worker.handles(&Event::Sent(false)));
    assert!(Worker::new().handles(&Event::Cancelled));
}

#[test]
fn events_are_awaited_by_stage() {
    let received: Event = WorkEvent::Received(TransactionScannerMessage::Message);
    let listening = Worker::new();
    assert!(listening.accepts(&received));
    assert!(listening.accepts(&Event::ScannerFinished));
    assert!(!listening.accepts(&Event::Sent(true)));
    let (finished, _) = Worker::new().step("solana", Event::ScannerFinished);
    assert!(!finished.accepts(&Event::ScannerFinished));
    assert!(!resolving().accepts(&received));
    assert!(resolving().accepts(&Event::Cancelled));
    assert!(resolving().accepts(&fetched(vec![])));
    let (delivering, _) = resolving().step("solana", fetched(vec![call(b"a")]));
    assert!(delivering.accepts(&Event::Sent(false)));
    assert!(!delivering.accepts(&Event::Cancelled));
    let (stopped, _) = Worker::new().step("solana", Event::ChannelClosed);
    assert!(!stopped.accepts(&Event::Cancelled));
    assert!(!stopped.accepts(&received));
}
