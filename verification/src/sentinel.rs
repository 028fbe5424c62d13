//! The Solana sentinel: it watches the gateway program for contract calls and hands each of them,
//! as a message, to the Axelar verifier.
use vstd::prelude::*;
use vstd::string::*;

use crate::cancellation::{Scope, ScopedToken};
use crate::channel::Outbox;
use crate::encoding;
use crate::message;
use crate::message::{
    CallContract, GatewayEvent, Message, SolanaToAxelarMessage, SolanaTransaction,
};

verus! {

/// Seconds between two requests of the transaction scanner for new signatures.
pub const FETCH_SIGNATURES_INTERVAL_SECS: u64 = 5;

/// Why the sentinel stopped. `E` is the type of the errors that reach it from outside.
#[derive(Debug, PartialEq, Eq)]
pub enum SentinelError<E> {
    /// Cancellation was requested.
    Stopped,
    /// The transaction scanner closed its channel.
    TransactionScannerChannelClosed,
    /// The transaction scanner gave up.
    TransactionScannerTerminated(E),
    /// The task that was to fetch a transaction did not run to its end.
    FetchTaskFailed(E),
    /// A transaction could not be fetched, and no later attempt can help.
    TransactionRetriever(E),
    /// These bytes were to name a chain and are not UTF-8.
    ByteVecParsing(Vec<u8>),
    /// The verifier no longer takes messages. The text is the identifier of the one refused.
    SendMessageError(String),
}

/// What a [`SentinelError`] holds.
pub enum SentinelErrorView<E> {
    Stopped,
    TransactionScannerChannelClosed,
    TransactionScannerTerminated(E),
    FetchTaskFailed(E),
    TransactionRetriever(E),
    ByteVecParsing(Seq<u8>),
    SendMessageError(Seq<char>),
}

impl<E> View for SentinelError<E> {
    type V = SentinelErrorView<E>;

    open spec fn view(&self) -> SentinelErrorView<E> {
        match *self {
            SentinelError::Stopped => SentinelErrorView::Stopped,
            SentinelError::TransactionScannerChannelClosed => {
                SentinelErrorView::TransactionScannerChannelClosed
            },
            SentinelError::TransactionScannerTerminated(e) => {
                SentinelErrorView::TransactionScannerTerminated(e)
            },
            SentinelError::FetchTaskFailed(e) => SentinelErrorView::FetchTaskFailed(e),
            SentinelError::TransactionRetriever(e) => SentinelErrorView::TransactionRetriever(e),
            SentinelError::ByteVecParsing(bytes) => SentinelErrorView::ByteVecParsing(bytes@),
            SentinelError::SendMessageError(id) => SentinelErrorView::SendMessageError(id@),
        }
    }
}

/// Tries to build the message for a contract call that stands at `transaction_index` of a
/// transaction's log.
pub fn handle_gateway_call_contract_event<E>(
    chain_name: &str,
    transaction_signature: [u8; 64],
    transaction_index: usize,
    call: CallContract,
) -> (res: Result<SolanaToAxelarMessage, SentinelError<E>>)
    ensures
        match res {
            Ok(delivery) => {
                &&& vstd::utf8::valid_utf8(call.destination_chain@)
                &&& delivery@ == message::call_message(
                    chain_name@,
                    transaction_signature@,
                    transaction_index as nat,
                    call@,
                )
                &&& delivery.signature@ == transaction_signature@
                &&& delivery.message.id@ == message::message_id(
                    chain_name@,
                    transaction_signature@,
                    transaction_index as nat,
                )
                &&& delivery.message.source_chain@ == chain_name@
                &&& encoding::hex_decoded(delivery.message.source_address@) == Ok::<
                    Seq<u8>,
                    encoding::HexError,
                >(call.sender@)
                &&& vstd::utf8::encode_utf8(delivery.message.destination_chain@)
                    == call.destination_chain@
                &&& encoding::hex_decoded(delivery.message.destination_address@) == Ok::<
                    Seq<u8>,
                    encoding::HexError,
                >(call.destination_address@)
                &&& delivery.message.payload@ == call.payload@
            },
            Err(error) => {
                &&& error matches SentinelError::ByteVecParsing(bytes)
                &&& bytes@ == call.destination_chain@
                &&& !vstd::utf8::valid_utf8(call.destination_chain@)
                &&& error@ == SentinelErrorView::<E>::ByteVecParsing(call.destination_chain@)
            },
        },
{
    let mut id: String = chain_name.to_owned();
    id.append(":");
    id.append(encoding::signature_text(&transaction_signature).as_str());
    id.append(":");
    id.append(encoding::decimal_text(transaction_index).as_str());
    proof {
        reveal_strlit(":");
        assert(":"@ =~= seq![':']);
        crate::encoding_laws::hex_round_trip(call.sender@);
        crate::encoding_laws::hex_round_trip(call.destination_address@);
        if vstd::utf8::valid_utf8(call.destination_chain@) {
            vstd::utf8::decode_utf8_encode_utf8(call.destination_chain@);
        }
    }
    let source_address = encoding::hex_encode(call.sender.as_slice());
    let destination_address = encoding::hex_encode(call.destination_address.as_slice());
    let refused = call.destination_chain.clone();
    assert(refused@ =~= call.destination_chain@);
    match String::from_utf8(call.destination_chain) {
        Ok(destination_chain) => {
            let delivery = SolanaToAxelarMessage {
                message: Message {
                    id,
                    source_chain: chain_name.to_owned(),
                    source_address,
                    destination_chain,
                    destination_address,
                    payload: call.payload,
                },
                signature: transaction_signature,
            };
            Ok(delivery)
        },
        Err(_) => Err(SentinelError::ByteVecParsing(refused)),
    }
}

/// The first log line from `from` on that encodes a gateway event.
pub open spec fn next_event(
    logs: Seq<Option<message::GatewayEventView>>,
    from: int,
) -> Option<int>
    decreases logs.len() - from,
{
    if from >= logs.len() {
        None
    } else if logs[from] is Some {
        Some(from)
    } else {
        next_event(logs, from + 1)
    }
}

/// Whether the next event from `from` on, if there is one, is a contract call. The sentinel has no
/// handler for any other event.
pub open spec fn next_event_is_call(
    transaction: message::SolanaTransactionView,
    from: int,
) -> bool {
    next_event(transaction.logs, from) matches Some(i)
        ==> transaction.logs[i]->0 is CallContract
}

/// The first log line from `from` on that encodes a gateway event.
fn find_event(transaction: &SolanaTransaction, from: usize) -> (found: Option<usize>)
    requires
        from <= transaction.logs.len(),
    ensures
        match found {
            Some(i) => {
                &&& from <= i < transaction.logs.len()
                &&& transaction.logs@[i as int] is Some
                &&& forall|j: int| from <= j < i ==> #[trigger] transaction.logs@[j] is None
                &&& next_event(transaction@.logs, from as int) == Some(i as int)
            },
            None => {
                &&& forall|j: int|
                    from <= j < transaction.logs.len() ==> #[trigger] transaction.logs@[j] is None
                &&& next_event(transaction@.logs, from as int) is None
            },
        },
{
    let mut i: usize = from;
    while i < transaction.logs.len()
        invariant
            from <= i <= transaction.logs.len(),
            forall|j: int| from <= j < i ==> #[trigger] transaction.logs@[j] is None,
            next_event(transaction@.logs, i as int) == next_event(transaction@.logs, from as int),
        decreases transaction.logs.len() - i,
    {
        assert(transaction@.logs[i as int] == message::log_view(transaction.logs@[i as int]));
        if transaction.logs[i].is_some() {
            return Some(i);
        }
        i += 1;
    }
    None
}

/// Whether the sentinel has a handler for the next event from `from` on.
pub fn handles_next_event(transaction: &SolanaTransaction, from: usize) -> (handled: bool)
    requires
        from <= transaction.logs.len(),
    ensures
        handled == next_event_is_call(transaction@, from as int),
        !handled ==> exists|i: int|
            {
                &&& from <= i < transaction.logs.len()
                &&& #[trigger] transaction.logs@[i] matches Some(event)
                &&& !(event is CallContract)
                &&& forall|j: int| from <= j < i ==> #[trigger] transaction.logs@[j] is None
            },
        handled ==> forall|i: int|
            from <= i < transaction.logs.len() && (#[trigger] transaction.logs@[i] matches Some(
                event,
            ) && !(event is CallContract)) ==> exists|j: int|
                from <= j < i && #[trigger] transaction.logs@[j] is Some,
{
    match find_event(transaction, from) {
        None => true,
        Some(i) => {
            assert(transaction@.logs[i as int] == message::log_view(transaction.logs@[i as int]));
            match &transaction.logs[i] {
                Some(GatewayEvent::CallContract(_)) => true,
                _ => false,
            }
        },
    }
}

/// What comes next in the processing of a transaction.
#[derive(Debug, PartialEq, Eq)]
pub enum TransactionStep<E> {
    /// No event is left.
    Finished,
    /// The log line at `index` is a contract call, and this is the message for it.
    Deliver { index: usize, delivery: SolanaToAxelarMessage },
    /// The next contract call cannot be made into a message.
    Failed(SentinelError<E>),
}

/// What a [`TransactionStep`] holds.
pub enum TransactionStepView<E> {
    Finished,
    Deliver { index: int, delivery: message::SolanaToAxelarMessageView },
    Failed(SentinelErrorView<E>),
}

impl<E> View for TransactionStep<E> {
    type V = TransactionStepView<E>;

    open spec fn view(&self) -> TransactionStepView<E> {
        match *self {
            TransactionStep::Finished => TransactionStepView::Finished,
            TransactionStep::Deliver { index, delivery } => TransactionStepView::Deliver {
                index: index as int,
                delivery: delivery@,
            },
            TransactionStep::Failed(error) => TransactionStepView::Failed(error@),
        }
    }
}

/// What comes next in the processing of a transaction whose log lines before `from` are done: the
/// next contract call becomes a message that carries its position among all log lines.
pub open spec fn transaction_step<E>(
    chain_name: Seq<char>,
    transaction: message::SolanaTransactionView,
    from: int,
) -> TransactionStepView<E> {
    match next_event(transaction.logs, from) {
        None => TransactionStepView::Finished,
        Some(index) => {
            let call = transaction.logs[index]->0->CallContract_0;
            if vstd::utf8::valid_utf8(call.destination_chain) {
                TransactionStepView::Deliver {
                    index,
                    delivery: message::call_message(
                        chain_name,
                        transaction.signature,
                        index as nat,
                        call,
                    ),
                }
            } else {
                TransactionStepView::Failed(
                    SentinelErrorView::ByteVecParsing(call.destination_chain),
                )
            }
        },
    }
}

/// Searches the log lines of a transaction from `from` on for the next gateway event and makes the
/// message for it.
pub fn process_transaction<E>(
    chain_name: &str,
    transaction: &SolanaTransaction,
    from: usize,
) -> (step: TransactionStep<E>)
    requires
        from <= transaction.logs.len(),
        next_event_is_call(transaction@, from as int),
    ensures
        step@ == transaction_step::<E>(chain_name@, transaction@, from as int),
        step matches TransactionStep::Deliver { index, .. } ==> from <= index
            < transaction.logs.len(),
        match step {
            TransactionStep::Finished => forall|j: int|
                from <= j < transaction.logs.len() ==> #[trigger] transaction.logs@[j] is None,
            TransactionStep::Deliver { index, delivery } => {
                &&& forall|j: int| from <= j < index ==> #[trigger] transaction.logs@[j] is None
                &&& transaction.logs@[index as int] matches Some(GatewayEvent::CallContract(call))
                &&& vstd::utf8::valid_utf8(call.destination_chain@)
                &&& delivery.signature@ == transaction.signature@
                &&& delivery.message.id@ == message::message_id(
                    chain_name@,
                    transaction.signature@,
                    index as nat,
                )
                &&& delivery.message.source_chain@ == chain_name@
                &&& encoding::hex_decoded(delivery.message.source_address@) == Ok::<
                    Seq<u8>,
                    encoding::HexError,
                >(call.sender@)
                &&& vstd::utf8::encode_utf8(delivery.message.destination_chain@)
                    == call.destination_chain@
                &&& encoding::hex_decoded(delivery.message.destination_address@) == Ok::<
                    Seq<u8>,
                    encoding::HexError,
                >(call.destination_address@)
                &&& delivery.message.payload@ == call.payload@
            },
            TransactionStep::Failed(error) => exists|i: int|
                {
                    &&& from <= i < transaction.logs.len()
                    &&& #[trigger] transaction.logs@[i] matches Some(GatewayEvent::CallContract(call))
                    &&& !vstd::utf8::valid_utf8(call.destination_chain@)
                    &&& error matches SentinelError::ByteVecParsing(bytes)
                    &&& bytes@ == call.destination_chain@
                    &&& forall|j: int| from <= j < i ==> #[trigger] transaction.logs@[j] is None
                },
        },
{
    match find_event(transaction, from) {
        None => TransactionStep::Finished,
        Some(index) => {
            assert(transaction@.logs[index as int] == message::log_view(
                transaction.logs@[index as int],
            ));
            match &transaction.logs[index] {
                Some(GatewayEvent::CallContract(data)) => {
                    let call = CallContract {
                        sender: data.sender,
                        destination_chain: data.destination_chain.clone(),
                        destination_address: data.destination_address.clone(),
                        payload: data.payload.clone(),
                    };
                    assert(call@ =~= data@);
                    let built = handle_gateway_call_contract_event(
                        chain_name,
                        transaction.signature,
                        index,
                        call,
                    );
                    match built {
                        Ok(delivery) => TransactionStep::Deliver { index, delivery },
                        Err(error) => TransactionStep::Failed(error),
                    }
                },
                _ => TransactionStep::Finished,
            }
        },
    }
}

/// What the transaction scanner reports.
#[derive(Debug, PartialEq, Eq)]
pub enum TransactionScannerMessage<E> {
    /// A task has been started that fetches a transaction.
    Message,
    /// The scanner has given up.
    Terminated(E),
}

/// Why a transaction was not fetched.
#[derive(Debug, PartialEq, Eq)]
pub enum TransactionRetrieverError<E> {
    /// This transaction is lost, others can still be fetched.
    NonFatal(E),
    /// No transaction can be fetched any more.
    Fatal(E),
}

/// What happens while a message of the scanner is processed.
#[derive(Debug, PartialEq, Eq)]
pub enum MessageEvent<E> {
    /// The message arrives.
    Message(TransactionScannerMessage<E>),
    /// Cancellation is requested before the transaction is there.
    Cancelled,
    /// The fetching task has ended: with the outcome of the fetch, or without one.
    Fetched(Result<Result<SolanaTransaction, TransactionRetrieverError<E>>, E>),
}

/// What a [`MessageEvent`] holds.
pub enum MessageEventView<E> {
    Message(TransactionScannerMessage<E>),
    Cancelled,
    Fetched(Result<Result<message::SolanaTransactionView, TransactionRetrieverError<E>>, E>),
}

impl<E> View for MessageEvent<E> {
    type V = MessageEventView<E>;

    open spec fn view(&self) -> MessageEventView<E> {
        match *self {
            MessageEvent::Message(m) => MessageEventView::Message(m),
            MessageEvent::Cancelled => MessageEventView::Cancelled,
            MessageEvent::Fetched(Ok(Ok(transaction))) => MessageEventView::Fetched(
                Ok(Ok(transaction@)),
            ),
            MessageEvent::Fetched(Ok(Err(error))) => MessageEventView::Fetched(Ok(Err(error))),
            MessageEvent::Fetched(Err(error)) => MessageEventView::Fetched(Err(error)),
        }
    }
}

/// What comes next in the processing of a message of the scanner.
#[derive(Debug, PartialEq, Eq)]
pub enum MessageStep<E> {
    /// Wait for the fetching task or for cancellation.
    AwaitFetch,
    /// The message is dealt with.
    Done(Result<(), SentinelError<E>>),
    /// Process this transaction.
    Process(SolanaTransaction),
}

/// What a [`MessageStep`] holds.
pub enum MessageStepView<E> {
    AwaitFetch,
    Done(Result<(), SentinelErrorView<E>>),
    Process(message::SolanaTransactionView),
}

impl<E> View for MessageStep<E> {
    type V = MessageStepView<E>;

    open spec fn view(&self) -> MessageStepView<E> {
        match *self {
            MessageStep::AwaitFetch => MessageStepView::AwaitFetch,
            MessageStep::Done(Ok(_)) => MessageStepView::Done(Ok(())),
            MessageStep::Done(Err(error)) => MessageStepView::Done(Err(error@)),
            MessageStep::Process(transaction) => MessageStepView::Process(transaction@),
        }
    }
}

/// What comes next in the processing of a message of the scanner. Only errors that are not fatal
/// are passed over.
pub open spec fn message_step<E>(event: MessageEventView<E>) -> MessageStepView<E> {
    match event {
        MessageEventView::Message(TransactionScannerMessage::Message) => {
            MessageStepView::AwaitFetch
        },
        MessageEventView::Message(TransactionScannerMessage::Terminated(e)) => {
            MessageStepView::Done(Err(SentinelErrorView::TransactionScannerTerminated(e)))
        },
        MessageEventView::Cancelled => MessageStepView::Done(Err(SentinelErrorView::Stopped)),
        MessageEventView::Fetched(Err(e)) => {
            MessageStepView::Done(Err(SentinelErrorView::FetchTaskFailed(e)))
        },
        MessageEventView::Fetched(Ok(Err(TransactionRetrieverError::NonFatal(_)))) => {
            MessageStepView::Done(Ok(()))
        },
        MessageEventView::Fetched(Ok(Err(TransactionRetrieverError::Fatal(e)))) => {
            MessageStepView::Done(Err(SentinelErrorView::TransactionRetriever(e)))
        },
        MessageEventView::Fetched(Ok(Ok(transaction))) => MessageStepView::Process(transaction),
    }
}

/// Decides how the processing of a message of the scanner goes on.
pub fn process_message<E>(event: MessageEvent<E>) -> (step: MessageStep<E>)
    ensures
        step@ == message_step(event@),
        match event {
            MessageEvent::Message(TransactionScannerMessage::Message) => step is AwaitFetch,
            MessageEvent::Message(TransactionScannerMessage::Terminated(e)) => step
                == MessageStep::Done(Err(SentinelError::TransactionScannerTerminated(e))),
            MessageEvent::Cancelled => step == MessageStep::Done(Err(SentinelError::<E>::Stopped)),
            MessageEvent::Fetched(Err(e)) => step == MessageStep::Done(
                Err(SentinelError::FetchTaskFailed(e)),
            ),
            MessageEvent::Fetched(Ok(Err(TransactionRetrieverError::NonFatal(_)))) => step
                == MessageStep::<E>::Done(Ok(())),
            MessageEvent::Fetched(Ok(Err(TransactionRetrieverError::Fatal(e)))) => step
                == MessageStep::Done(Err(SentinelError::TransactionRetriever(e))),
            MessageEvent::Fetched(Ok(Ok(transaction))) => step == MessageStep::<E>::Process(
                transaction,
            ),
        },
{
    match event {
        MessageEvent::Message(TransactionScannerMessage::Message) => MessageStep::AwaitFetch,
        MessageEvent::Message(TransactionScannerMessage::Terminated(e)) => {
            MessageStep::Done(Err(SentinelError::TransactionScannerTerminated(e)))
        },
        MessageEvent::Cancelled => MessageStep::Done(Err(SentinelError::Stopped)),
        MessageEvent::Fetched(Err(e)) => MessageStep::Done(Err(SentinelError::FetchTaskFailed(e))),
        MessageEvent::Fetched(Ok(Err(TransactionRetrieverError::NonFatal(_)))) => {
            MessageStep::Done(Ok(()))
        },
        MessageEvent::Fetched(Ok(Err(TransactionRetrieverError::Fatal(e)))) => {
            MessageStep::Done(Err(SentinelError::TransactionRetriever(e)))
        },
        MessageEvent::Fetched(Ok(Ok(transaction))) => MessageStep::Process(transaction),
    }
}

/// What the transaction scanner is started with.
pub struct ScannerSetup<S> {
    pub gateway_address: solana_program::pubkey::Pubkey,
    pub state: S,
    pub rpc: url::Url,
    /// Seconds between two requests for new signatures.
    pub fetch_signatures_interval_secs: u64,
    pub cancellation_token: ScopedToken,
}

/// How the race between the sentinel's work and a request for cancellation ends.
#[derive(Debug, PartialEq, Eq)]
pub enum RunEvent<E> {
    /// Cancellation was requested.
    CancellationSignalled,
    /// The work, which should run forever, returned.
    WorkReturned(Result<(), SentinelError<E>>),
}

/// How the sentinel ended.
#[derive(Debug, PartialEq, Eq)]
pub enum RunOutcome<E> {
    Cancelled,
    WorkerReturned,
    WorkerFailed(SentinelError<E>),
}

/// How an end of the race is to be reported.
pub open spec fn run_outcome<E>(event: RunEvent<E>) -> RunOutcome<E> {
    match event {
        RunEvent::CancellationSignalled => RunOutcome::Cancelled,
        RunEvent::WorkReturned(Ok(_)) => RunOutcome::WorkerReturned,
        RunEvent::WorkReturned(Err(error)) => RunOutcome::WorkerFailed(error),
    }
}

/// What is left to do when the sentinel ends: cancel its token, wait for the scanner to finish if so
/// told, and report the outcome.
pub struct RunEnd<E> {
    pub cancel: ScopedToken,
    pub await_scanner: bool,
    pub outcome: RunOutcome<E>,
}

/// Solana Sentinel
///
/// Monitors the Solana Gateway program for relevant events. `S` is the type of the handle on the
/// relayer's state.
pub struct SolanaSentinel<S> {
    pub gateway_address: solana_program::pubkey::Pubkey,
    pub rpc: url::Url,
    pub verifier_channel: Outbox<SolanaToAxelarMessage>,
    pub state: S,
    pub cancellation_token: ScopedToken,
}

impl<S> SolanaSentinel<S> {
    /// A sentinel that hands its messages to this channel.
    pub fn new(
        gateway_address: solana_program::pubkey::Pubkey,
        rpc: url::Url,
        verifier_channel: Outbox<SolanaToAxelarMessage>,
        state: S,
        cancellation_token: ScopedToken,
    ) -> (sentinel: Self)
        ensures
            sentinel == (SolanaSentinel {
                gateway_address,
                rpc,
                verifier_channel,
                state,
                cancellation_token,
            }),
    {
        SolanaSentinel { gateway_address, rpc, verifier_channel, state, cancellation_token }
    }

    /// Ends the sentinel, which should work forever. However it came to its end, cancellation is
    /// signalled to all that the sentinel has started. If the work returned, a scanner that still
    /// runs is waited for; on a request for cancellation the sentinel ends at once.
    pub fn run<E>(self, event: RunEvent<E>, scanner_running: bool) -> (end: RunEnd<E>)
        ensures
            end.cancel == self.cancellation_token,
            end.await_scanner == (scanner_running && event is WorkReturned),
            end.outcome == run_outcome(event),
            event is CancellationSignalled <==> end.outcome is Cancelled,
            event matches RunEvent::WorkReturned(Ok(_)) ==> end.outcome is WorkerReturned,
            event matches RunEvent::WorkReturned(Err(error)) ==> end.outcome
                == RunOutcome::WorkerFailed(error),
    {
        let (await_scanner, outcome) = match event {
            RunEvent::CancellationSignalled => (false, RunOutcome::Cancelled),
            RunEvent::WorkReturned(Ok(_)) => (scanner_running, RunOutcome::WorkerReturned),
            RunEvent::WorkReturned(Err(error)) => (
                scanner_running,
                RunOutcome::WorkerFailed(error),
            ),
        };
        RunEnd { cancel: self.cancellation_token, await_scanner, outcome }
    }
}

impl<S: Clone> SolanaSentinel<S> {
    /// Starts the work: gives what to start the transaction scanner with, under a token that
    /// derives from the sentinel's, and a worker that listens to it.
    pub fn work(&self) -> (start: (ScannerSetup<S>, crate::worker::Worker))
        ensures
            start.0.gateway_address == self.gateway_address,
            cloned(self.state, start.0.state),
            start.0.rpc == self.rpc,
            start.0.fetch_signatures_interval_secs == FETCH_SIGNATURES_INTERVAL_SECS,
            start.0.fetch_signatures_interval_secs == 5,
            start.0.cancellation_token.scope() == Scope::Scanner,
            start.0.cancellation_token.is_child_of(self.cancellation_token),
            start.1@ == crate::worker::WorkerView::start(),
    {
        let setup = ScannerSetup {
            gateway_address: self.gateway_address,
            state: self.state.clone(),
            rpc: self.rpc.clone(),
            fetch_signatures_interval_secs: FETCH_SIGNATURES_INTERVAL_SECS,
            cancellation_token: self.cancellation_token.child_token(Scope::Scanner),
        };
        (setup, crate::worker::Worker::new())
    }
}

/// However the sentinel ends, the cancellation that it signals then reaches the scanner that its
/// work started.
pub proof fn end_reaches_the_scanner<S, E>(
    sentinel: SolanaSentinel<S>,
    setup: ScannerSetup<S>,
    end: RunEnd<E>,
)
    requires
        setup.cancellation_token.is_child_of(sentinel.cancellation_token),
        end.cancel == sentinel.cancellation_token,
    ensures
        end.cancel.reaches(setup.cancellation_token),
{
    crate::cancellation::cancellation_reaches_descendants(
        end.cancel,
        sentinel.cancellation_token,
        setup.cancellation_token,
    );
}

/// The next event is found where it stands: nothing stands between `from` and it, and none is found
/// only if none is there.
pub proof fn the_next_event_is_found(logs: Seq<Option<message::GatewayEventView>>, from: int)
    requires
        0 <= from <= logs.len(),
    ensures
        match next_event(logs, from) {
            Some(i) => {
                &&& from <= i < logs.len()
                &&& logs[i] is Some
                &&& forall|j: int| from <= j < i ==> #[trigger] logs[j] is None
            },
            None => forall|j: int| from <= j < logs.len() ==> #[trigger] logs[j] is None,
        },
    decreases logs.len() - from,
{
    if from < logs.len() && logs[from] is None {
        the_next_event_is_found(logs, from + 1);
    }
}

/// A step through a transaction takes the next event of the log and no other. If that is a contract
/// call whose destination is named in UTF-8, its message is delivered, and the position that goes
/// into the message is that of the log line. If the name is not UTF-8, the step fails with its
/// bytes. The transaction is finished exactly if no event is left.
pub proof fn a_step_takes_the_next_event<E>(
    chain_name: Seq<char>,
    transaction: message::SolanaTransactionView,
    from: int,
    at: int,
    call: message::CallContractView,
)
    requires
        0 <= from <= at <= transaction.logs.len(),
        forall|j: int| from <= j < at ==> #[trigger] transaction.logs[j] is None,
        at < transaction.logs.len() ==> transaction.logs[at] == Some(
            message::GatewayEventView::CallContract(call),
        ),
    ensures
        ({
            let step = transaction_step::<E>(chain_name, transaction, from);
            if at == transaction.logs.len() {
                step is Finished
            } else if vstd::utf8::valid_utf8(call.destination_chain) {
                &&& step matches TransactionStepView::Deliver { index, delivery }
                &&& index == at
                &&& delivery == message::call_message(
                    chain_name,
                    transaction.signature,
                    at as nat,
                    call,
                )
            } else {
                step == TransactionStepView::<E>::Failed(
                    SentinelErrorView::ByteVecParsing(call.destination_chain),
                )
            }
        }),
{
    the_next_event_is_found(transaction.logs, from);
}

/// The sentinel has no handler for the next event exactly if the first event from `from` on is
/// something else than a contract call.
pub proof fn only_calls_are_handled(
    transaction: message::SolanaTransactionView,
    from: int,
    at: int,
)
    requires
        0 <= from <= at <= transaction.logs.len(),
        forall|j: int| from <= j < at ==> #[trigger] transaction.logs[j] is None,
        at < transaction.logs.len() ==> transaction.logs[at] is Some,
    ensures
        next_event_is_call(transaction, from) <==> (at < transaction.logs.len()
            ==> transaction.logs[at]->0 is CallContract),
{
    the_next_event_is_found(transaction.logs, from);
}

/// Every outcome of a message of the scanner: only a fetched transaction is processed, and it is
/// processed as it was fetched. Each failure but one that is not fatal ends the processing with its
/// own error.
pub proof fn message_outcomes<E>(error: E, transaction: message::SolanaTransactionView)
    ensures
        message_step(MessageEventView::Message(TransactionScannerMessage::<E>::Message))
            is AwaitFetch,
        message_step(MessageEventView::Message(TransactionScannerMessage::Terminated(error)))
            == MessageStepView::Done(Err(SentinelErrorView::TransactionScannerTerminated(error))),
        message_step(MessageEventView::<E>::Cancelled) == MessageStepView::<E>::Done(
            Err(SentinelErrorView::Stopped),
        ),
        message_step(MessageEventView::Fetched(Err(error))) == MessageStepView::Done(
            Err(SentinelErrorView::FetchTaskFailed(error)),
        ),
        message_step(
            MessageEventView::Fetched(Ok(Err(TransactionRetrieverError::NonFatal(error)))),
        ) == MessageStepView::<E>::Done(Ok(())),
        message_step(
            MessageEventView::Fetched(Ok(Err(TransactionRetrieverError::Fatal(error)))),
        ) == MessageStepView::Done(Err(SentinelErrorView::TransactionRetriever(error))),
        message_step(MessageEventView::<E>::Fetched(Ok(Ok(transaction)))) == MessageStepView::<
            E,
        >::Process(transaction),
{
}

/// What is reported at the sentinel's end is what ended it, with the error that the work returned.
pub proof fn outcomes_are_reported<E>(event: RunEvent<E>)
    ensures
        event is CancellationSignalled <==> run_outcome(event) is Cancelled,
        event matches RunEvent::WorkReturned(Ok(_)) ==> run_outcome(event) is WorkerReturned,
        event matches RunEvent::WorkReturned(Err(error)) ==> run_outcome(event)
            == RunOutcome::WorkerFailed(error),
{
}

} // verus!
