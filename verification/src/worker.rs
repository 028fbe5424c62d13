//! The sentinel's work: it takes one message of the transaction scanner at a time and hands the
//! messages of each transaction to the verifier, until something makes it stop.
use vstd::prelude::*;

use crate::cancellation::Scope;
use crate::message;
use crate::message::{SolanaToAxelarMessage, SolanaTransaction};
use crate::sentinel;
use crate::sentinel::{
    MessageEvent, MessageStep, SentinelError, TransactionScannerMessage, TransactionStep,
};

verus! {

/// What the worker is doing.
#[derive(Debug, PartialEq, Eq)]
pub enum Stage {
    /// Waiting for a message of the scanner, for the scanner to finish or for cancellation.
    Listening,
    /// Waiting for a transaction to be fetched or for cancellation.
    Resolving,
    /// Waiting until the verifier has taken the message `id` of this transaction. The log lines
    /// before `next` are done.
    Delivering { transaction: SolanaTransaction, next: usize, id: String },
    /// The work has ended.
    Stopped,
}

/// What a [`Stage`] holds.
pub enum StageView {
    Listening,
    Resolving,
    Delivering { transaction: message::SolanaTransactionView, next: int, id: Seq<char> },
    Stopped,
}

impl View for Stage {
    type V = StageView;

    open spec fn view(&self) -> StageView {
        match *self {
            Stage::Listening => StageView::Listening,
            Stage::Resolving => StageView::Resolving,
            Stage::Delivering { transaction, next, id } => StageView::Delivering {
                transaction: transaction@,
                next: next as int,
                id: id@,
            },
            Stage::Stopped => StageView::Stopped,
        }
    }
}

/// The sentinel at work.
#[derive(Debug, PartialEq, Eq)]
pub struct Worker {
    /// Whether the scanner still runs and has to be driven on while the worker listens.
    pub scanner_running: bool,
    pub stage: Stage,
}

/// What a [`Worker`] holds.
pub struct WorkerView {
    pub scanner_running: bool,
    pub stage: StageView,
}

impl View for Worker {
    type V = WorkerView;

    open spec fn view(&self) -> WorkerView {
        WorkerView { scanner_running: self.scanner_running, stage: self.stage@ }
    }
}

/// What happens to the worker.
#[derive(Debug, PartialEq, Eq)]
pub enum WorkEvent<E> {
    /// Cancellation is requested.
    Cancelled,
    /// The scanner has run to its end.
    ScannerFinished,
    /// The scanner's channel is closed and empty.
    ChannelClosed,
    /// A message of the scanner arrives.
    Received(TransactionScannerMessage<E>),
    /// The task that fetches a transaction has ended.
    Fetched(
        Result<Result<SolanaTransaction, sentinel::TransactionRetrieverError<E>>, E>,
    ),
    /// The verifier has taken the message, or will take none any more.
    Sent(bool),
}

/// What a [`WorkEvent`] holds.
pub enum WorkEventView<E> {
    Cancelled,
    ScannerFinished,
    ChannelClosed,
    Received(TransactionScannerMessage<E>),
    Fetched(
        Result<Result<message::SolanaTransactionView, sentinel::TransactionRetrieverError<E>>, E>,
    ),
    Sent(bool),
}

impl<E> View for WorkEvent<E> {
    type V = WorkEventView<E>;

    open spec fn view(&self) -> WorkEventView<E> {
        match *self {
            WorkEvent::Cancelled => WorkEventView::Cancelled,
            WorkEvent::ScannerFinished => WorkEventView::ScannerFinished,
            WorkEvent::ChannelClosed => WorkEventView::ChannelClosed,
            WorkEvent::Received(m) => WorkEventView::Received(m),
            WorkEvent::Fetched(Ok(Ok(transaction))) => WorkEventView::Fetched(Ok(Ok(transaction@))),
            WorkEvent::Fetched(Ok(Err(error))) => WorkEventView::Fetched(Ok(Err(error))),
            WorkEvent::Fetched(Err(error)) => WorkEventView::Fetched(Err(error)),
            WorkEvent::Sent(taken) => WorkEventView::Sent(taken),
        }
    }
}

/// What the worker wants done.
#[derive(Debug, PartialEq, Eq)]
pub enum WorkAction<E> {
    /// Wait for the next event while listening, and drive the scanner on if so told.
    Listen { drive_scanner: bool },
    /// Wait for the fetching task or for cancellation.
    AwaitFetch,
    /// Hand this message to the verifier.
    Send(SolanaToAxelarMessage),
    /// Cancel the token of this scope, then end with this error.
    Return { cancel: Scope, error: SentinelError<E> },
}

/// What a [`WorkAction`] holds.
pub enum WorkActionView<E> {
    Listen { drive_scanner: bool },
    AwaitFetch,
    Send(message::SolanaToAxelarMessageView),
    Return { cancel: Scope, error: sentinel::SentinelErrorView<E> },
}

impl<E> View for WorkAction<E> {
    type V = WorkActionView<E>;

    open spec fn view(&self) -> WorkActionView<E> {
        match *self {
            WorkAction::Listen { drive_scanner } => WorkActionView::Listen { drive_scanner },
            WorkAction::AwaitFetch => WorkActionView::AwaitFetch,
            WorkAction::Send(delivery) => WorkActionView::Send(delivery@),
            WorkAction::Return { cancel, error } => WorkActionView::Return {
                cancel,
                error: error@,
            },
        }
    }
}

impl WorkerView {
    /// The worker at its start.
    pub open spec fn start() -> WorkerView {
        WorkerView { scanner_running: true, stage: StageView::Listening }
    }

    /// Whether the worker waits for an event of this kind.
    pub open spec fn accepts<E>(self, event: WorkEventView<E>) -> bool {
        match self.stage {
            StageView::Listening => match event {
                WorkEventView::ScannerFinished => self.scanner_running,
                WorkEventView::Cancelled => true,
                WorkEventView::ChannelClosed => true,
                WorkEventView::Received(_) => true,
                _ => false,
            },
            StageView::Resolving => event is Cancelled || event is Fetched,
            StageView::Delivering { .. } => event is Sent,
            StageView::Stopped => false,
        }
    }

    /// Whether the log lines that are done lie within the transaction that is being delivered.
    pub open spec fn well_formed(self) -> bool {
        self.stage matches StageView::Delivering { transaction, next, .. } ==> 0 <= next
            <= transaction.logs.len()
    }

    /// Whether every gateway event that this event leads to is one that the sentinel handles.
    pub open spec fn handles<E>(self, event: WorkEventView<E>) -> bool {
        match (self.stage, event) {
            (StageView::Resolving, WorkEventView::Fetched(Ok(Ok(transaction)))) => {
                sentinel::next_event_is_call(transaction, 0)
            },
            (StageView::Delivering { transaction, next, .. }, WorkEventView::Sent(true)) => {
                sentinel::next_event_is_call(transaction, next)
            },
            _ => true,
        }
    }

    /// Back to listening.
    pub open spec fn listen<E>(self) -> (WorkerView, WorkActionView<E>) {
        (
            WorkerView { stage: StageView::Listening, ..self },
            WorkActionView::Listen { drive_scanner: self.scanner_running },
        )
    }

    /// The end of the work: the sentinel's token is cancelled and the error returned.
    pub open spec fn stop<E>(self, error: sentinel::SentinelErrorView<E>) -> (
        WorkerView,
        WorkActionView<E>,
    ) {
        (
            WorkerView { stage: StageView::Stopped, ..self },
            WorkActionView::Return { cancel: Scope::Sentinel, error },
        )
    }

    /// On with a transaction whose log lines before `from` are done.
    pub open spec fn proceed<E>(
        self,
        chain_name: Seq<char>,
        transaction: message::SolanaTransactionView,
        from: int,
    ) -> (WorkerView, WorkActionView<E>) {
        match sentinel::transaction_step::<E>(chain_name, transaction, from) {
            sentinel::TransactionStepView::Finished => self.listen(),
            sentinel::TransactionStepView::Deliver { index, delivery } => (
                WorkerView {
                    stage: StageView::Delivering {
                        transaction,
                        next: index + 1,
                        id: delivery.message.id,
                    },
                    ..self
                },
                WorkActionView::Send(delivery),
            ),
            sentinel::TransactionStepView::Failed(error) => self.stop(error),
        }
    }

    /// On with a message of the scanner.
    pub open spec fn follow<E>(
        self,
        chain_name: Seq<char>,
        step: sentinel::MessageStepView<E>,
    ) -> (WorkerView, WorkActionView<E>) {
        match step {
            sentinel::MessageStepView::AwaitFetch => (
                WorkerView { stage: StageView::Resolving, ..self },
                WorkActionView::AwaitFetch,
            ),
            sentinel::MessageStepView::Done(Ok(_)) => self.listen(),
            sentinel::MessageStepView::Done(Err(error)) => self.stop(error),
            sentinel::MessageStepView::Process(transaction) => self.proceed(
                chain_name,
                transaction,
                0,
            ),
        }
    }

    /// The worker after an event that it accepts, and what it wants done then.
    pub open spec fn step<E>(self, chain_name: Seq<char>, event: WorkEventView<E>) -> (
        WorkerView,
        WorkActionView<E>,
    ) {
        match (self.stage, event) {
            (StageView::Listening, WorkEventView::Cancelled) => self.stop(
                sentinel::SentinelErrorView::Stopped,
            ),
            (StageView::Listening, WorkEventView::ScannerFinished) => WorkerView {
                scanner_running: false,
                ..self
            }.listen(),
            (StageView::Listening, WorkEventView::ChannelClosed) => self.stop(
                sentinel::SentinelErrorView::TransactionScannerChannelClosed,
            ),
            (StageView::Listening, WorkEventView::Received(m)) => self.follow(
                chain_name,
                sentinel::message_step(sentinel::MessageEventView::Message(m)),
            ),
            (StageView::Resolving, WorkEventView::Cancelled) => self.follow(
                chain_name,
                sentinel::message_step(sentinel::MessageEventView::<E>::Cancelled),
            ),
            (StageView::Resolving, WorkEventView::Fetched(result)) => self.follow(
                chain_name,
                sentinel::message_step(sentinel::MessageEventView::Fetched(result)),
            ),
            (
                StageView::Delivering { transaction, next, .. },
                WorkEventView::Sent(true),
            ) => self.proceed(chain_name, transaction, next),
            (StageView::Delivering { id, .. }, WorkEventView::Sent(false)) => self.stop(
                sentinel::SentinelErrorView::SendMessageError(id),
            ),
            _ => self.listen(),
        }
    }
}

impl Worker {
    /// A worker that listens while the scanner runs.
    pub fn new() -> (worker: Worker)
        ensures
            worker@ == WorkerView::start(),
    {
        Worker { scanner_running: true, stage: Stage::Listening }
    }

    /// Listens again.
    fn listen<E>(self) -> (res: (Worker, WorkAction<E>))
        ensures
            (res.0@, res.1@) == self@.listen::<E>(),
    {
        (
            Worker { scanner_running: self.scanner_running, stage: Stage::Listening },
            WorkAction::Listen { drive_scanner: self.scanner_running },
        )
    }

    /// Ends the work with an error, which cancels whatever the sentinel has started.
    fn stop<E>(self, error: SentinelError<E>) -> (res: (Worker, WorkAction<E>))
        ensures
            (res.0@, res.1@) == self@.stop(error@),
    {
        (
            Worker { scanner_running: self.scanner_running, stage: Stage::Stopped },
            WorkAction::Return { cancel: Scope::Sentinel, error },
        )
    }

    /// Goes on with a transaction whose log lines before `from` are done.
    fn proceed<E>(self, chain_name: &str, transaction: SolanaTransaction, from: usize) -> (res: (
        Worker,
        WorkAction<E>,
    ))
        requires
            from <= transaction.logs.len(),
            sentinel::next_event_is_call(transaction@, from as int),
        ensures
            (res.0@, res.1@) == self@.proceed::<E>(chain_name@, transaction@, from as int),
            res.0@.well_formed(),
    {
        match sentinel::process_transaction(chain_name, &transaction, from) {
            TransactionStep::Finished => self.listen(),
            TransactionStep::Deliver { index, delivery } => {
                let id = delivery.message.id.clone();
                let stage = Stage::Delivering { transaction, next: index + 1, id };
                (
                    Worker { scanner_running: self.scanner_running, stage },
                    WorkAction::Send(delivery),
                )
            },
            TransactionStep::Failed(error) => self.stop(error),
        }
    }

    /// Goes on with a message of the scanner.
    fn follow<E>(self, chain_name: &str, step: MessageStep<E>) -> (res: (Worker, WorkAction<E>))
        requires
            step@ matches sentinel::MessageStepView::Process(transaction)
                ==> sentinel::next_event_is_call(transaction, 0),
        ensures
            (res.0@, res.1@) == self@.follow(chain_name@, step@),
            res.0@.well_formed(),
    {
        match step {
            MessageStep::AwaitFetch => (
                Worker { scanner_running: self.scanner_running, stage: Stage::Resolving },
                WorkAction::AwaitFetch,
            ),
            MessageStep::Done(Ok(_)) => self.listen(),
            MessageStep::Done(Err(error)) => self.stop(error),
            MessageStep::Process(transaction) => self.proceed(chain_name, transaction, 0),
        }
    }

    /// Takes an event and decides what is to be done next.
    pub fn step<E>(self, chain_name: &str, event: WorkEvent<E>) -> (res: (Worker, WorkAction<E>))
        requires
            self@.well_formed(),
            self@.accepts(event@),
            self@.handles(event@),
        ensures
            (res.0@, res.1@) == self@.step(chain_name@, event@),
            res.0@.well_formed(),
    {
        let Worker { scanner_running, stage } = self;
        match (stage, event) {
            (Stage::Listening, WorkEvent::Cancelled) => {
                let worker = Worker { scanner_running, stage: Stage::Listening };
                worker.stop(SentinelError::Stopped)
            },
            (Stage::Listening, WorkEvent::ScannerFinished) => {
                let worker = Worker { scanner_running: false, stage: Stage::Listening };
                worker.listen()
            },
            (Stage::Listening, WorkEvent::ChannelClosed) => {
                let worker = Worker { scanner_running, stage: Stage::Listening };
                worker.stop(SentinelError::TransactionScannerChannelClosed)
            },
            (Stage::Listening, WorkEvent::Received(m)) => {
                let worker = Worker { scanner_running, stage: Stage::Listening };
                worker.follow(chain_name, sentinel::process_message(MessageEvent::Message(m)))
            },
            (Stage::Resolving, WorkEvent::Cancelled) => {
                let worker = Worker { scanner_running, stage: Stage::Resolving };
                worker.follow(chain_name, sentinel::process_message(MessageEvent::Cancelled))
            },
            (Stage::Resolving, WorkEvent::Fetched(result)) => {
                let worker = Worker { scanner_running, stage: Stage::Resolving };
                worker.follow(chain_name, sentinel::process_message(MessageEvent::Fetched(result)))
            },
            (Stage::Delivering { transaction, next, id: _ }, WorkEvent::Sent(true)) => {
                let worker = Worker { scanner_running, stage: Stage::Listening };
                worker.proceed(chain_name, transaction, next)
            },
            (Stage::Delivering { transaction: _, next: _, id }, WorkEvent::Sent(false)) => {
                let worker = Worker { scanner_running, stage: Stage::Listening };
                worker.stop(SentinelError::SendMessageError(id))
            },
            _ => {
                let worker = Worker { scanner_running, stage: Stage::Listening };
                worker.listen()
            },
        }
    }

    /// Whether the worker waits for an event of this kind.
    pub fn accepts<E>(&self, event: &WorkEvent<E>) -> (accepted: bool)
        ensures
            accepted == self@.accepts(event@),
    {
        match (&self.stage, event) {
            (Stage::Listening, WorkEvent::ScannerFinished) => self.scanner_running,
            (Stage::Listening, WorkEvent::Cancelled) => true,
            (Stage::Listening, WorkEvent::ChannelClosed) => true,
            (Stage::Listening, WorkEvent::Received(_)) => true,
            (Stage::Resolving, WorkEvent::Cancelled) => true,
            (Stage::Resolving, WorkEvent::Fetched(_)) => true,
            (Stage::Delivering { .. }, WorkEvent::Sent(_)) => true,
            _ => false,
        }
    }

    /// Whether the sentinel has a handler for the gateway event that this event leads to.
    pub fn handles<E>(&self, event: &WorkEvent<E>) -> (handled: bool)
        requires
            self@.well_formed(),
        ensures
            handled == self@.handles(event@),
    {
        match (&self.stage, event) {
            (Stage::Resolving, WorkEvent::Fetched(Ok(Ok(transaction)))) => {
                sentinel::handles_next_event(transaction, 0)
            },
            (Stage::Delivering { transaction, next, id: _ }, WorkEvent::Sent(true)) => {
                sentinel::handles_next_event(transaction, *next)
            },
            _ => true,
        }
    }
}

} // verus!
