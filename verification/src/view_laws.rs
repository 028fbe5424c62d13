//! What the views keep: each value has the contents that its view says it has.
use vstd::prelude::*;

use crate::keys::{KeyError, KeyErrorView};
use crate::message::{
    CallContract, GatewayEvent, GatewayEventView, Message, SolanaToAxelarMessage,
    SolanaTransaction,
};
use crate::sentinel::{
    MessageEvent, MessageEventView, MessageStep, MessageStepView, SentinelError,
    SentinelErrorView, TransactionStep, TransactionStepView,
};
use crate::worker::{
    Stage, StageView, WorkAction, WorkActionView, WorkEvent, WorkEventView, Worker,
};

verus! {

/// A message holds each text and byte that its view shows.
pub proof fn message_view_is_faithful(message: Message)
    ensures
        message@.id == message.id@,
        message@.source_chain == message.source_chain@,
        message@.source_address == message.source_address@,
        message@.destination_chain == message.destination_chain@,
        message@.destination_address == message.destination_address@,
        message@.payload == message.payload@,
{
}

/// A delivery holds the message and the signature that its view shows.
pub proof fn delivery_view_is_faithful(delivery: SolanaToAxelarMessage)
    ensures
        delivery@.message == delivery.message@,
        delivery@.signature == delivery.signature@,
{
}

/// A contract call holds each byte that its view shows.
pub proof fn call_view_is_faithful(call: CallContract)
    ensures
        call@.sender == call.sender@,
        call@.destination_chain == call.destination_chain@,
        call@.destination_address == call.destination_address@,
        call@.payload == call.payload@,
{
}

/// An event is of the sort that its view shows, and holds the call that its view shows.
pub proof fn event_view_is_faithful(event: GatewayEvent)
    ensures
        event matches GatewayEvent::CallContract(call) ==> event@ == GatewayEventView::CallContract(
            call@,
        ),
        event is OperatorshipTransferred ==> event@ is OperatorshipTransferred,
        event is Other ==> event@ is Other,
{
}

/// A transaction has as many log lines as its view shows, each with the event that it shows.
pub proof fn transaction_view_is_faithful(transaction: SolanaTransaction)
    ensures
        transaction@.signature == transaction.signature@,
        transaction@.logs.len() == transaction.logs.len(),
        forall|i: int|
            0 <= i < transaction.logs.len() ==> match transaction.logs@[i] {
                Some(event) => #[trigger] transaction@.logs[i] == Some(event@),
                None => transaction@.logs[i] is None,
            },
{
}

/// An error of the sentinel is of the sort that its view shows, and holds what its view shows.
pub proof fn error_view_is_faithful<E>(error: SentinelError<E>)
    ensures
        match error {
            SentinelError::Stopped => error@ is Stopped,
            SentinelError::TransactionScannerChannelClosed => {
                error@ is TransactionScannerChannelClosed
            },
            SentinelError::TransactionScannerTerminated(e) => error@
                == SentinelErrorView::TransactionScannerTerminated(e),
            SentinelError::FetchTaskFailed(e) => error@ == SentinelErrorView::FetchTaskFailed(e),
            SentinelError::TransactionRetriever(e) => error@
                == SentinelErrorView::TransactionRetriever(e),
            SentinelError::ByteVecParsing(bytes) => error@ == SentinelErrorView::<
                E,
            >::ByteVecParsing(bytes@),
            SentinelError::SendMessageError(id) => error@ == SentinelErrorView::<
                E,
            >::SendMessageError(id@),
        },
{
}

/// A step through a transaction is what its view shows.
pub proof fn transaction_step_view_is_faithful<E>(step: TransactionStep<E>)
    ensures
        match step {
            TransactionStep::Finished => step@ is Finished,
            TransactionStep::Deliver { index, delivery } => step@ == (TransactionStepView::<
                E,
            >::Deliver { index: index as int, delivery: delivery@ }),
            TransactionStep::Failed(error) => step@ == TransactionStepView::Failed(error@),
        },
{
}

/// What happens to a message of the scanner is what its view shows.
pub proof fn message_event_view_is_faithful<E>(event: MessageEvent<E>)
    ensures
        match event {
            MessageEvent::Message(m) => event@ == MessageEventView::Message(m),
            MessageEvent::Cancelled => event@ is Cancelled,
            MessageEvent::Fetched(Ok(Ok(transaction))) => event@ == MessageEventView::<E>::Fetched(
                Ok(Ok(transaction@)),
            ),
            MessageEvent::Fetched(Ok(Err(error))) => event@ == MessageEventView::Fetched(
                Ok(Err(error)),
            ),
            MessageEvent::Fetched(Err(error)) => event@ == MessageEventView::Fetched(Err(error)),
        },
{
}

/// How the processing of a message goes on is what its view shows.
pub proof fn message_step_view_is_faithful<E>(step: MessageStep<E>)
    ensures
        match step {
            MessageStep::AwaitFetch => step@ is AwaitFetch,
            MessageStep::Done(Ok(_)) => step@ == MessageStepView::<E>::Done(Ok(())),
            MessageStep::Done(Err(error)) => step@ == MessageStepView::Done(Err(error@)),
            MessageStep::Process(transaction) => step@ == MessageStepView::<E>::Process(
                transaction@,
            ),
        },
{
}

/// A worker does what its view shows.
pub proof fn worker_view_is_faithful(worker: Worker)
    ensures
        worker@.scanner_running == worker.scanner_running,
        match worker.stage {
            Stage::Listening => worker@.stage is Listening,
            Stage::Resolving => worker@.stage is Resolving,
            Stage::Delivering { transaction, next, id } => worker@.stage == (
            StageView::Delivering { transaction: transaction@, next: next as int, id: id@ }),
            Stage::Stopped => worker@.stage is Stopped,
        },
{
}

/// What happens to a worker is what its view shows.
pub proof fn work_event_view_is_faithful<E>(event: WorkEvent<E>)
    ensures
        match event {
            WorkEvent::Cancelled => event@ is Cancelled,
            WorkEvent::ScannerFinished => event@ is ScannerFinished,
            WorkEvent::ChannelClosed => event@ is ChannelClosed,
            WorkEvent::Received(m) => event@ == WorkEventView::Received(m),
            WorkEvent::Fetched(Ok(Ok(transaction))) => event@ == WorkEventView::<E>::Fetched(
                Ok(Ok(transaction@)),
            ),
            WorkEvent::Fetched(Ok(Err(error))) => event@ == WorkEventView::Fetched(Ok(Err(error))),
            WorkEvent::Fetched(Err(error)) => event@ == WorkEventView::Fetched(Err(error)),
            WorkEvent::Sent(taken) => event@ == WorkEventView::<E>::Sent(taken),
        },
{
}

/// What a worker wants done is what its view shows.
pub proof fn work_action_view_is_faithful<E>(action: WorkAction<E>)
    ensures
        match action {
            WorkAction::Listen { drive_scanner } => action@ == (WorkActionView::<E>::Listen {
                drive_scanner,
            }),
            WorkAction::AwaitFetch => action@ is AwaitFetch,
            WorkAction::Send(delivery) => action@ == WorkActionView::<E>::Send(delivery@),
            WorkAction::Return { cancel, error } => action@ == (WorkActionView::Return {
                cancel,
                error: error@,
            }),
        },
{
}

/// An error about a key is of the sort that its view shows, and has the cause in the text that its
/// view shows.
pub proof fn key_error_view_is_faithful(error: KeyError)
    ensures
        error matches KeyError::Hex(cause) ==> error@ == KeyErrorView::Hex(cause),
        error is InvalidPrivateKey ==> error@ is InvalidPrivateKey,
{
}

} // verus!
