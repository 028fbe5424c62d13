use axelar_solana::encoding::decimal_text;
use axelar_solana::message::{
    CallContract, GatewayEvent, Message, SolanaToAxelarMessage, SolanaTransaction,
};
use axelar_solana::sentinel::{
    handle_gateway_call_contract_event, handles_next_event, process_message, process_transaction,
    MessageEvent, MessageStep, SentinelError, TransactionRetrieverError,
    TransactionScannerMessage, TransactionStep,
};

const SIGNATURE_TEXT: &str =
    "1GMkH3brNXiNNs1tiFZHu4yZSRrzJwxi5wB9bHFtMinfCXNnR1adh8Vo8NTheK4evneedH4qmvjeqcBBNAefgS";

fn signature() -> [u8; 64] {
    let mut bytes = [0u8; 64];
    for (i, byte) in bytes.iter_mut().enumerate() {
        *byte = i as u8;
    }
    bytes
}

fn call(destination_chain: &[u8]) -> CallContract {
    CallContract {
        sender: [0xab; 32],
        destination_chain: destination_chain.to_vec(),
        destination_address: vec![0x00, 0x0f, 0xf0, 0xff],
        payload: vec![1, 2, 3],
    }
}

fn built(
    signature: [u8; 64],
    index: usize,
    call: CallContract,
) -> Result<SolanaToAxelarMessage, SentinelError<&'static str>> {
    handle_gateway_call_contract_event("solana", signature, index, call)
}

#[test]
fn contract_call_becomes_message() {
    let expected = SolanaToAxelarMessage {
        message: Message {
            id: format!("solana:{}:3", SIGNATURE_TEXT),
            source_chain: "solana".to_string(),
            source_address: "abababababababababababababababababababababababababababababababab"
                .to_string(),
            destination_chain: "ethereum".to_string(),
            destination_address: "000ff0ff".to_string(),
            payload: vec![1, 2, 3],
        },
        signature: signature(),
    };
    assert_eq!(built(signature(), 3, call(b"ethereum")), Ok(expected));
}

#[test]
fn message_identifiers_of_edge_signatures() {
    let id = |signature: [u8; 64], index: usize| {
        built(signature, index, call(b"x")).unwrap().message.id
    };
    assert_eq!(id([0; 64], 0), format!("solana:{}:0", "1".repeat(64)));
    let mut one = [0u8; 64];
    one[63] = 1;
    assert_eq!(id(one, 10), format!("solana:{}2:10", "1".repeat(63)));
    assert_eq!(
        id([7; 64], 1907),
        "solana:99eUso3aSbE9tqGSTXzo3TLfKb9RkMTURrHKQ1K7Zh3BbeqPevr5E1iCbpTjqHuTFLtfxTTD5ekfVuZFzQyEQf8:1907"
    );
    assert_eq!(
        id([255; 64], usize::MAX),
        format!(
            "solana:67rpwLCuS5DGA8KGZXKsVQ7dnPb9goRLoKfgGbLfQg9WoLUgNY77E2jT11fem3coV9nAkguBACzrU1iyZM4B8roQ:{}",
            usize::MAX
        )
    );
}

#[test]
fn message_identifiers_differ() {
    let id = |signature: [u8; 64], index: usize| {
        built(signature, index, call(b"x")).unwrap().message.id
    };
    assert_ne!(id([1; 64], 1), id([1; 64], 11));
    assert_ne!(id([1; 64], 1), id([2; 64], 1));
    assert_ne!(id([0; 64], 0), id(signature(), 0));
}

#[test]
fn addresses_decode_to_what_they_were_written_from() {
    let message = built(signature(), 0, call(b"x")).unwrap().message;
    assert_eq!(hex::decode(message.source_address), Ok(vec![0xab; 32]));
    assert_eq!(hex::decode(message.destination_address), Ok(vec![0x00, 0x0f, 0xf0, 0xff]));
}

#[test]
fn empty_parts_of_a_call() {
    let empty = CallContract {
        sender: [0; 32],
        destination_chain: vec![],
        destination_address: vec![],
        payload: vec![],
    };
    let message = built([0; 64], 0, empty).unwrap().message;
    assert_eq!(message.destination_chain, "");
    assert_eq!(message.destination_address, "");
    assert_eq!(message.source_address, "0".repeat(64));
    assert_eq!(message.payload, Vec::<u8>::new());
}

#[test]
fn destination_chain_beyond_ascii() {
    let message = built(signature(), 0, call("ketté".as_bytes())).unwrap().message;
    assert_eq!(message.destination_chain, "ketté");
    assert_eq!(message.destination_chain.as_bytes(), "ketté".as_bytes());
}

#[test]
fn destination_chain_has_to_be_utf8() {
    for bytes in [vec![0xff], vec![b'e', 0xc3], vec![0xed, 0xa0, 0x80], vec![0xc0, 0x80]] {
        assert_eq!(
            built(signature(), 0, call(&bytes)),
            Err(SentinelError::ByteVecParsing(bytes.clone()))
        );
    }
}

fn transaction(logs: Vec<Option<GatewayEvent>>) -> SolanaTransaction {
    SolanaTransaction { signature: signature(), logs }
}

fn step(transaction: &SolanaTransaction, from: usize) -> TransactionStep<&'static str> {
    process_transaction("solana", transaction, from)
}

#[test]
fn events_keep_their_log_index() {
    let tx = transaction(vec![
        None,
        None,
        Some(GatewayEvent::CallContract(call(b"a"))),
        None,
        Some(GatewayEvent::CallContract(call(b"b"))),
        None,
    ]);
    let first = built(signature(), 2, call(b"a")).unwrap();
    let second = built(signature(), 4, call(b"b")).unwrap();
    for from in 0..3 {
        assert!(handles_next_event(&tx, from));
        let expected = TransactionStep::Deliver {
            index: 2,
            delivery: built(signature(), 2, call(b"a")).unwrap(),
        };
        assert_eq!(step(&tx, from), expected);
    }
    assert_eq!(first.message.id, format!("solana:{}:2", SIGNATURE_TEXT));
    assert_eq!(step(&tx, 3), TransactionStep::Deliver { index: 4, delivery: second });
    assert_eq!(step(&tx, 5), TransactionStep::Finished);
    assert_eq!(step(&tx, 6), TransactionStep::Finished);
}

#[test]
fn transaction_without_events() {
    assert_eq!(step(&transaction(vec![]), 0), TransactionStep::Finished);
    assert_eq!(step(&transaction(vec![None, None]), 0), TransactionStep::Finished);
}

#[test]
fn undecodable_call_fails_the_transaction() {
    let tx = transaction(vec![None, Some(GatewayEvent::CallContract(call(&[0x80])))]);
    assert_eq!(
        step(&tx, 0),
        TransactionStep::Failed(SentinelError::ByteVecParsing(vec![0x80]))
    );
}

#[test]
fn other_events_have_no_handler() {
    for event in [GatewayEvent::OperatorshipTransferred, GatewayEvent::Other] {
        let tx = transaction(vec![Some(GatewayEvent::CallContract(call(b"a"))), None, Some(event)]);
        assert!(handles_next_event(&tx, 0));
        assert!(!handles_next_event(&tx, 1));
        assert!(!handles_next_event(&tx, 2));
        assert!(handles_next_event(&tx, 3));
    }
}

#[test]
fn scanner_messages() {
    assert_eq!(
        process_message::<&str>(MessageEvent::Message(TransactionScannerMessage::Message)),
        MessageStep::AwaitFetch
    );
    assert_eq!(
        process_message(MessageEvent::Message(TransactionScannerMessage::Terminated("gone"))),
        MessageStep::Done(Err(SentinelError::TransactionScannerTerminated("gone")))
    );
}

#[test]
fn fetch_outcomes() {
    assert_eq!(
        process_message::<&str>(MessageEvent::Cancelled),
        MessageStep::Done(Err(SentinelError::Stopped))
    );
    assert_eq!(
        process_message(MessageEvent::Fetched(Err("panicked"))),
        MessageStep::Done(Err(SentinelError::FetchTaskFailed("panicked")))
    );
    assert_eq!(
        process_message(MessageEvent::Fetched(Ok(Err(TransactionRetrieverError::NonFatal("x"))))),
        MessageStep::Done(Ok(()))
    );
    assert_eq!(
        process_message(MessageEvent::Fetched(Ok(Err(TransactionRetrieverError::Fatal("x"))))),
        MessageStep::Done(Err(SentinelError::TransactionRetriever("x")))
    );
    assert_eq!(
        process_message::<&str>(MessageEvent::Fetched(Ok(Ok(transaction(vec![None]))))),
        MessageStep::Process(transaction(vec![None]))
    );
}

#[test]
fn decimal_texts() {
    for n in [0, 1, 9, 10, 11, 99, 100, 1907, 10000, usize::MAX - 1, usize::MAX] {
        assert_eq!(decimal_text(n), n.to_string());
    }
    assert_eq!(decimal_text(0), "0");
    assert_eq!(decimal_text(120), "120");
}
