//! What the sentinel's work keeps, whatever events it meets.
use vstd::prelude::*;

use crate::cancellation::Scope;
use crate::message;
use crate::message::{GatewayEventView, SolanaToAxelarMessageView, SolanaTransactionView};
use crate::sentinel;
use crate::sentinel::{
    SentinelErrorView, TransactionRetrieverError, TransactionScannerMessage, TransactionStepView,
};
use crate::worker::{StageView, WorkActionView, WorkEventView, WorkerView};

verus! {

/// The work ends exactly when the worker asks to return, it never returns without an error, and
/// it never does so without cancelling the sentinel's token.
pub proof fn ending_cancels_the_sentinel<E>(
    worker: WorkerView,
    chain_name: Seq<char>,
    event: WorkEventView<E>,
)
    requires
        worker.accepts(event),
    ensures
        worker.step(chain_name, event).0.stage is Stopped <==> worker.step(
            chain_name,
            event,
        ).1 is Return,
        worker.step(chain_name, event).1 matches WorkActionView::Return { cancel, .. } ==> cancel
            == Scope::Sentinel,
{
}

/// A request for cancellation ends the work as `Stopped` wherever the worker waits for one, which
/// is always except while a message is being handed to the verifier.
pub proof fn cancellation_ends_the_work<E>(worker: WorkerView, chain_name: Seq<char>)
    requires
        worker.stage is Listening || worker.stage is Resolving,
    ensures
        worker.accepts(WorkEventView::<E>::Cancelled),
        worker.step(chain_name, WorkEventView::<E>::Cancelled).1 == (WorkActionView::<E>::Return {
            cancel: Scope::Sentinel,
            error: SentinelErrorView::Stopped,
        }),
{
}

/// An error that is not fatal does not interrupt the work: the worker listens again.
pub proof fn non_fatal_errors_are_passed_over<E>(
    worker: WorkerView,
    chain_name: Seq<char>,
    error: E,
)
    requires
        worker.stage is Resolving,
    ensures
        ({
            let event = WorkEventView::Fetched(Ok(Err(TransactionRetrieverError::NonFatal(error))));
            worker.step(chain_name, event) == worker.listen::<E>()
        }),
{
}

/// A fatal error interrupts the work and is what it ends with.
pub proof fn fatal_errors_end_the_work<E>(worker: WorkerView, chain_name: Seq<char>, error: E)
    requires
        worker.stage is Resolving,
    ensures
        ({
            let event = WorkEventView::Fetched(Ok(Err(TransactionRetrieverError::Fatal(error))));
            worker.step(chain_name, event) == worker.stop(
                SentinelErrorView::TransactionRetriever(error),
            )
        }),
{
}

/// Messages of the scanner are processed one after the other: the worker takes one only while it
/// listens, and it stops listening as long as the last one is in process.
pub proof fn one_message_at_a_time<E>(
    worker: WorkerView,
    chain_name: Seq<char>,
    next: TransactionScannerMessage<E>,
)
    ensures
        worker.accepts(WorkEventView::Received(next)) <==> worker.stage is Listening,
        worker.stage is Listening ==> worker.step(
            chain_name,
            WorkEventView::Received(TransactionScannerMessage::<E>::Message),
        ).0.stage is Resolving,
{
}

/// The worker after a sequence of events.
pub open spec fn after<E>(
    worker: WorkerView,
    chain_name: Seq<char>,
    events: Seq<WorkEventView<E>>,
) -> WorkerView
    decreases events.len(),
{
    if events.len() == 0 {
        worker
    } else {
        after(worker, chain_name, events.drop_last()).step(chain_name, events.last()).0
    }
}

/// Whether the worker waits for each event of a sequence when it comes.
pub open spec fn accepts_all<E>(
    worker: WorkerView,
    chain_name: Seq<char>,
    events: Seq<WorkEventView<E>>,
) -> bool
    decreases events.len(),
{
    events.len() == 0 || {
        &&& accepts_all(worker, chain_name, events.drop_last())
        &&& after(worker, chain_name, events.drop_last()).accepts(events.last())
    }
}

/// The scanner is driven on until it has finished and never after: in any course of the work, it
/// counts as running exactly as long as its end has not been among the events, and it ends once at
/// most.
pub proof fn scanner_is_driven_until_it_finishes<E>(
    chain_name: Seq<char>,
    events: Seq<WorkEventView<E>>,
)
    requires
        accepts_all(WorkerView::start(), chain_name, events),
    ensures
        after(WorkerView::start(), chain_name, events).scanner_running <==> forall|i: int|
            0 <= i < events.len() ==> !(#[trigger] events[i] is ScannerFinished),
        forall|i: int, j: int|
            0 <= i < j < events.len() && #[trigger] events[i] is ScannerFinished
                ==> !(#[trigger] events[j] is ScannerFinished),
    decreases events.len(),
{
    if events.len() > 0 {
        let earlier = events.drop_last();
        scanner_is_driven_until_it_finishes(chain_name, earlier);
        assert forall|i: int| 0 <= i < earlier.len() implies earlier[i] == events[i] by {}
        let before = after(WorkerView::start(), chain_name, earlier);
        let last = events.last();
        assert(before.step(chain_name, last).0.scanner_running == (before.scanner_running && !(
        last is ScannerFinished)));
        assert(events[events.len() - 1] == last);
        if before.scanner_running && !(last is ScannerFinished) {
            assert forall|i: int| 0 <= i < events.len() implies !(
            #[trigger] events[i] is ScannerFinished) by {
                if i < earlier.len() {
                    assert(!(earlier[i] is ScannerFinished));
                }
            }
        }
        if !before.scanner_running {
            let k = choose|k: int|
                0 <= k < earlier.len() && #[trigger] earlier[k] is ScannerFinished;
            assert(events[k] is ScannerFinished);
        }
        assert forall|i: int, j: int|
            0 <= i < j < events.len() && #[trigger] events[i] is ScannerFinished implies !(
        #[trigger] events[j] is ScannerFinished) by {
            assert(earlier[i] is ScannerFinished);
            if j < earlier.len() {
                assert(!(earlier[j] is ScannerFinished));
            }
        }
    }
}

/// Once the work has ended, no event is waited for.
pub proof fn stopped_is_final<E>(worker: WorkerView, event: WorkEventView<E>)
    requires
        worker.stage is Stopped,
    ensures
        !worker.accepts(event),
{
}

/// Whether the log line at `i` is a contract call whose destination chain is named in UTF-8.
pub open spec fn is_deliverable(transaction: SolanaTransactionView, i: int) -> bool {
    transaction.logs[i] matches Some(GatewayEventView::CallContract(call))
        && vstd::utf8::valid_utf8(call.destination_chain)
}

/// Whether the log line at `i` is a contract call whose destination chain is not named in UTF-8.
pub open spec fn is_undeliverable(transaction: SolanaTransactionView, i: int) -> bool {
    transaction.logs[i] matches Some(GatewayEventView::CallContract(call))
        && !vstd::utf8::valid_utf8(call.destination_chain)
}

/// Whether the log line at `i` is a gateway event that the sentinel has no handler for.
pub open spec fn is_unhandled(transaction: SolanaTransactionView, i: int) -> bool {
    transaction.logs[i] matches Some(event) && !(event is CallContract)
}

/// Whether the transaction cannot be delivered beyond the log line at `i`.
pub open spec fn is_obstacle(transaction: SolanaTransactionView, i: int) -> bool {
    is_undeliverable(transaction, i) || is_unhandled(transaction, i)
}

/// The message for the contract call at `i`.
pub open spec fn message_at(
    chain_name: Seq<char>,
    transaction: SolanaTransactionView,
    i: int,
) -> SolanaToAxelarMessageView {
    message::call_message(
        chain_name,
        transaction.signature,
        i as nat,
        transaction.logs[i]->0->CallContract_0,
    )
}

/// The messages for the contract calls from log line `from` on, in the order of the log, up to the
/// first obstacle.
pub open spec fn call_messages(
    chain_name: Seq<char>,
    transaction: SolanaTransactionView,
    from: int,
) -> Seq<SolanaToAxelarMessageView>
    decreases transaction.logs.len() - from,
{
    if from >= transaction.logs.len() || is_obstacle(transaction, from) {
        Seq::empty()
    } else if is_deliverable(transaction, from) {
        seq![message_at(chain_name, transaction, from)] + call_messages(
            chain_name,
            transaction,
            from + 1,
        )
    } else {
        call_messages(chain_name, transaction, from + 1)
    }
}

/// The first log line from `from` on beyond which the transaction cannot be delivered.
pub open spec fn first_obstacle(transaction: SolanaTransactionView, from: int) -> Option<int>
    decreases transaction.logs.len() - from,
{
    if from >= transaction.logs.len() {
        None
    } else if is_obstacle(transaction, from) {
        Some(from)
    } else {
        first_obstacle(transaction, from + 1)
    }
}

/// Whether the delivery of a transaction from log line `from` on meets no event that the sentinel
/// has no handler for.
pub open spec fn meets_only_calls(transaction: SolanaTransactionView, from: int) -> bool {
    first_obstacle(transaction, from) matches Some(i) ==> is_undeliverable(transaction, i)
}

/// One step through a transaction takes the first of the messages that are left.
proof fn lemma_step_takes_first<E>(
    chain_name: Seq<char>,
    transaction: SolanaTransactionView,
    from: int,
)
    requires
        0 <= from <= transaction.logs.len(),
        call_messages(chain_name, transaction, from).len() > 0 || meets_only_calls(
            transaction,
            from,
        ),
    ensures
        sentinel::next_event_is_call(transaction, from),
        match sentinel::transaction_step::<E>(chain_name, transaction, from) {
            TransactionStepView::Finished => {
                &&& call_messages(chain_name, transaction, from).len() == 0
                &&& first_obstacle(transaction, from) is None
            },
            TransactionStepView::Deliver { index, delivery } => {
                &&& from <= index < transaction.logs.len()
                &&& call_messages(chain_name, transaction, from) == seq![delivery]
                    + call_messages(chain_name, transaction, index + 1)
                &&& first_obstacle(transaction, from) == first_obstacle(
                    transaction,
                    index + 1,
                )
            },
            TransactionStepView::Failed(error) => {
                &&& call_messages(chain_name, transaction, from).len() == 0
                &&& first_obstacle(transaction, from) matches Some(i)
                &&& error == SentinelErrorView::<E>::ByteVecParsing(
                    transaction.logs[i]->0->CallContract_0.destination_chain,
                )
            },
        },
    decreases transaction.logs.len() - from,
{
    if from < transaction.logs.len() && transaction.logs[from] is None {
        lemma_step_takes_first::<E>(chain_name, transaction, from + 1);
    }
}

/// The course of a delivery in which the verifier has taken `taken` messages.
pub open spec fn after_sends<E>(
    chain_name: Seq<char>,
    state: (WorkerView, WorkActionView<E>),
    taken: nat,
) -> (WorkerView, WorkActionView<E>)
    decreases taken,
{
    if taken == 0 {
        state
    } else {
        after_sends(
            chain_name,
            state.0.step(chain_name, WorkEventView::<E>::Sent(true)),
            (taken - 1) as nat,
        )
    }
}

proof fn lemma_deliveries<E>(
    worker: WorkerView,
    chain_name: Seq<char>,
    transaction: SolanaTransactionView,
    from: int,
    taken: nat,
)
    requires
        0 <= from <= transaction.logs.len(),
        taken <= call_messages(chain_name, transaction, from).len(),
        taken == call_messages(chain_name, transaction, from).len() ==> meets_only_calls(
            transaction,
            from,
        ),
    ensures
        ({
            let all = call_messages(chain_name, transaction, from);
            let state = after_sends::<E>(
                chain_name,
                worker.proceed(chain_name, transaction, from),
                taken,
            );
            if taken < all.len() {
                &&& state.1 == WorkActionView::<E>::Send(all[taken as int])
                &&& state.0.stage matches StageView::Delivering { id, .. } && id
                    == all[taken as int].message.id
                &&& state.0.step(chain_name, WorkEventView::<E>::Sent(false)) == worker.stop(
                    SentinelErrorView::<E>::SendMessageError(all[taken as int].message.id),
                )
            } else {
                state == match first_obstacle(transaction, from) {
                    None => worker.listen::<E>(),
                    Some(i) => worker.stop(
                        SentinelErrorView::<E>::ByteVecParsing(
                            transaction.logs[i]->0->CallContract_0.destination_chain,
                        ),
                    ),
                }
            }
        }),
    decreases taken,
{
    lemma_step_takes_first::<E>(chain_name, transaction, from);
    let all = call_messages(chain_name, transaction, from);
    match sentinel::transaction_step::<E>(chain_name, transaction, from) {
        TransactionStepView::Deliver { index, delivery } => {
            let rest = call_messages(chain_name, transaction, index + 1);
            assert(all[0] == delivery);
            if taken > 0 {
                assert(taken < all.len() ==> all[taken as int] == rest[taken - 1]);
                let next = worker.proceed::<E>(chain_name, transaction, from).0;
                assert(next.step(chain_name, WorkEventView::<E>::Sent(true)) == worker.proceed::<
                    E,
                >(chain_name, transaction, index + 1));
                lemma_deliveries::<E>(
                    worker,
                    chain_name,
                    transaction,
                    index + 1,
                    (taken - 1) as nat,
                );
            }
        },
        _ => {},
    }
}

/// A fetched transaction is delivered in the order of its log: while the verifier takes them, the
/// worker hands over the messages for the contract calls one by one, each with its index among all
/// log lines. After the last it listens again, unless a contract call cannot be made into a
/// message, which ends the work with the bytes that are not UTF-8. When the verifier refuses a
/// message, the work ends with the identifier of that message. Beyond an event that the sentinel
/// has no handler for nothing is said.
pub proof fn deliveries_follow_the_log<E>(
    worker: WorkerView,
    chain_name: Seq<char>,
    transaction: SolanaTransactionView,
    taken: nat,
)
    requires
        worker.stage is Resolving,
        taken <= call_messages(chain_name, transaction, 0).len(),
        taken == call_messages(chain_name, transaction, 0).len() ==> meets_only_calls(
            transaction,
            0,
        ),
    ensures
        ({
            let all = call_messages(chain_name, transaction, 0);
            let fetched = WorkEventView::<E>::Fetched(Ok(Ok(transaction)));
            let state = after_sends::<E>(chain_name, worker.step(chain_name, fetched), taken);
            if taken < all.len() {
                &&& state.1 == WorkActionView::<E>::Send(all[taken as int])
                &&& state.0.step(chain_name, WorkEventView::<E>::Sent(false)) == worker.stop(
                    SentinelErrorView::<E>::SendMessageError(all[taken as int].message.id),
                )
            } else {
                state == match first_obstacle(transaction, 0) {
                    None => worker.listen::<E>(),
                    Some(i) => worker.stop(
                        SentinelErrorView::<E>::ByteVecParsing(
                            transaction.logs[i]->0->CallContract_0.destination_chain,
                        ),
                    ),
                }
            }
        }),
{
    lemma_deliveries::<E>(worker, chain_name, transaction, 0, taken);
}

/// Whether a message is that of a contract call from log line `from` on.
pub open spec fn is_call_message(
    chain_name: Seq<char>,
    transaction: SolanaTransactionView,
    from: int,
    delivery: SolanaToAxelarMessageView,
) -> bool {
    exists|i: int|
        {
            &&& from <= i < transaction.logs.len()
            &&& is_deliverable(transaction, i)
            &&& delivery == #[trigger] message_at(chain_name, transaction, i)
        }
}

proof fn lemma_messages_are_calls(
    chain_name: Seq<char>,
    transaction: SolanaTransactionView,
    from: int,
)
    requires
        0 <= from <= transaction.logs.len(),
    ensures
        forall|i: int|
            #![trigger message_at(chain_name, transaction, i)]
            from <= i < transaction.logs.len() && is_deliverable(transaction, i)
                && (first_obstacle(transaction, from) matches Some(bad) ==> i < bad)
                ==> call_messages(chain_name, transaction, from).contains(
                message_at(chain_name, transaction, i),
            ),
        forall|k: int|
            0 <= k < call_messages(chain_name, transaction, from).len() ==> is_call_message(
                chain_name,
                transaction,
                from,
                #[trigger] call_messages(chain_name, transaction, from)[k],
            ),
    decreases transaction.logs.len() - from,
{
    if from < transaction.logs.len() && !is_obstacle(transaction, from) {
        lemma_messages_are_calls(chain_name, transaction, from + 1);
        let all = call_messages(chain_name, transaction, from);
        let rest = call_messages(chain_name, transaction, from + 1);
        if is_deliverable(transaction, from) {
            let first = message_at(chain_name, transaction, from);
            assert(all[0] == first);
            assert forall|i: int|
                #![trigger message_at(chain_name, transaction, i)]
                from <= i < transaction.logs.len() && is_deliverable(transaction, i) && (
                first_obstacle(transaction, from) matches Some(bad)
                    ==> i < bad) implies all.contains(message_at(chain_name, transaction, i)) by {
                if i > from {
                    assert(rest.contains(message_at(chain_name, transaction, i)));
                    let k = rest.index_of(message_at(chain_name, transaction, i));
                    assert(all[k + 1] == message_at(chain_name, transaction, i));
                }
            }
        }
        assert forall|k: int| 0 <= k < all.len() implies is_call_message(
            chain_name,
            transaction,
            from,
            #[trigger] all[k],
        ) by {
            let in_rest = if is_deliverable(transaction, from) {
                k - 1
            } else {
                k
            };
            if in_rest >= 0 {
                assert(all[k] == rest[in_rest]);
                assert(is_call_message(chain_name, transaction, from + 1, rest[in_rest]));
            } else {
                assert(all[k] == message_at(chain_name, transaction, from));
            }
        }
    }
}

/// The messages of a transaction are those of its contract calls and no others, up to the first
/// obstacle.
pub proof fn messages_are_the_calls(chain_name: Seq<char>, transaction: SolanaTransactionView)
    ensures
        forall|i: int|
            #![trigger message_at(chain_name, transaction, i)]
            0 <= i < transaction.logs.len() && is_deliverable(transaction, i) && (
            first_obstacle(transaction, 0) matches Some(bad) ==> i < bad) ==> call_messages(
                chain_name,
                transaction,
                0,
            ).contains(message_at(chain_name, transaction, i)),
        forall|k: int|
            0 <= k < call_messages(chain_name, transaction, 0).len() ==> is_call_message(
                chain_name,
                transaction,
                0,
                #[trigger] call_messages(chain_name, transaction, 0)[k],
            ),
{
    lemma_messages_are_calls(chain_name, transaction, 0);
}

/// The worker begins by listening, with the scanner running.
pub proof fn the_work_begins_with_listening()
    ensures
        WorkerView::start().stage is Listening,
        WorkerView::start().scanner_running,
{
}

/// What the worker waits for, by what it is doing.
pub proof fn what_is_waited_for<E>(worker: WorkerView, event: WorkEventView<E>)
    ensures
        worker.stage is Listening ==> (worker.accepts(event) <==> event is Cancelled
            || event is ChannelClosed || event is Received || (event is ScannerFinished
            && worker.scanner_running)),
        worker.stage is Resolving ==> (worker.accepts(event) <==> event is Cancelled
            || event is Fetched),
        worker.stage is Delivering ==> (worker.accepts(event) <==> event is Sent),
        worker.stage is Stopped ==> !worker.accepts(event),
{
}

/// What ends the work while the worker listens, and what does not: when the scanner has finished the
/// worker goes on listening and no longer drives it, when the channel is closed or the scanner has
/// given up the work ends with that error, and a message of the scanner makes it wait for the
/// transaction.
pub proof fn what_listening_leads_to<E>(worker: WorkerView, chain_name: Seq<char>, error: E)
    requires
        worker.stage is Listening,
    ensures
        worker.step(chain_name, WorkEventView::<E>::ScannerFinished) == (
            WorkerView { scanner_running: false, stage: StageView::Listening },
            WorkActionView::<E>::Listen { drive_scanner: false },
        ),
        worker.step(chain_name, WorkEventView::<E>::ChannelClosed) == (
            WorkerView { scanner_running: worker.scanner_running, stage: StageView::Stopped },
            WorkActionView::<E>::Return {
                cancel: Scope::Sentinel,
                error: SentinelErrorView::TransactionScannerChannelClosed,
            },
        ),
        worker.step(
            chain_name,
            WorkEventView::Received(TransactionScannerMessage::Terminated(error)),
        ) == (
            WorkerView { scanner_running: worker.scanner_running, stage: StageView::Stopped },
            WorkActionView::<E>::Return {
                cancel: Scope::Sentinel,
                error: SentinelErrorView::TransactionScannerTerminated(error),
            },
        ),
        worker.step(
            chain_name,
            WorkEventView::Received(TransactionScannerMessage::<E>::Message),
        ) == (
            WorkerView { scanner_running: worker.scanner_running, stage: StageView::Resolving },
            WorkActionView::<E>::AwaitFetch,
        ),
{
}

/// What a fetch that brought no transaction leads to: after an error that is not fatal the worker
/// listens again and drives the scanner on as before, and any other failure ends the work with its
/// own error.
pub proof fn what_failed_fetches_lead_to<E>(worker: WorkerView, chain_name: Seq<char>, error: E)
    requires
        worker.stage is Resolving,
    ensures
        worker.step(
            chain_name,
            WorkEventView::Fetched(Ok(Err(TransactionRetrieverError::NonFatal(error)))),
        ) == (
            WorkerView { scanner_running: worker.scanner_running, stage: StageView::Listening },
            WorkActionView::<E>::Listen { drive_scanner: worker.scanner_running },
        ),
        worker.step(
            chain_name,
            WorkEventView::Fetched(Ok(Err(TransactionRetrieverError::Fatal(error)))),
        ) == (
            WorkerView { scanner_running: worker.scanner_running, stage: StageView::Stopped },
            WorkActionView::<E>::Return {
                cancel: Scope::Sentinel,
                error: SentinelErrorView::TransactionRetriever(error),
            },
        ),
        worker.step(chain_name, WorkEventView::Fetched(Err(error))) == (
            WorkerView { scanner_running: worker.scanner_running, stage: StageView::Stopped },
            WorkActionView::<E>::Return {
                cancel: Scope::Sentinel,
                error: SentinelErrorView::FetchTaskFailed(error),
            },
        ),
{
}

/// An event is one that the sentinel cannot handle exactly if it brings a transaction on to a log
/// line, the next with a gateway event, whose event is no contract call.
pub proof fn only_foreign_events_are_unhandled<E>(
    worker: WorkerView,
    event: WorkEventView<E>,
    transaction: SolanaTransactionView,
    from: int,
    at: int,
)
    requires
        0 <= from <= at <= transaction.logs.len(),
        forall|j: int| from <= j < at ==> #[trigger] transaction.logs[j] is None,
        at < transaction.logs.len() ==> transaction.logs[at] is Some,
        ({
            ||| worker.stage is Resolving && event == WorkEventView::<E>::Fetched(
                Ok(Ok(transaction)),
            ) && from == 0
            ||| event == WorkEventView::<E>::Sent(true) && (worker.stage matches
                StageView::Delivering { transaction: delivered, next, .. } && delivered
                == transaction && next == from)
        }),
    ensures
        worker.handles(event) <==> (at < transaction.logs.len() ==> transaction.logs[at]->0 is
            CallContract),
{
    sentinel::only_calls_are_handled(transaction, from, at);
}

/// Every other event is handled.
pub proof fn other_events_are_handled<E>(worker: WorkerView, event: WorkEventView<E>)
    requires
        event is Cancelled || event is ScannerFinished || event is ChannelClosed
            || event is Received || event == WorkEventView::<E>::Sent(false) || (event matches
            WorkEventView::Fetched(outcome) && !(outcome matches Ok(Ok(_)))),
    ensures
        worker.handles(event),
{
}

/// Whether `positions` are the log lines from `from` up to `end` that hold a gateway event, in order,
/// all of them contract calls whose destination chain is named in UTF-8.
pub open spec fn are_calls_between(
    transaction: SolanaTransactionView,
    from: int,
    end: int,
    positions: Seq<int>,
) -> bool {
    &&& forall|k: int|
        0 <= k < positions.len() ==> {
            &&& from <= #[trigger] positions[k] < end
            &&& is_deliverable(transaction, positions[k])
        }
    &&& forall|k: int, l: int|
        0 <= k < l < positions.len() ==> #[trigger] positions[k] < #[trigger] positions[l]
    &&& forall|i: int|
        from <= i < end && #[trigger] transaction.logs[i] is Some ==> positions.contains(i)
}

proof fn lemma_calls_in_order<E>(
    worker: WorkerView,
    chain_name: Seq<char>,
    transaction: SolanaTransactionView,
    from: int,
    end: int,
    positions: Seq<int>,
    taken: nat,
)
    requires
        0 <= from <= end <= transaction.logs.len(),
        are_calls_between(transaction, from, end, positions),
        taken <= positions.len(),
        taken == positions.len() && end < transaction.logs.len() ==> is_undeliverable(
            transaction,
            end,
        ),
    ensures
        ({
            let state = after_sends::<E>(
                chain_name,
                worker.proceed(chain_name, transaction, from),
                taken,
            );
            if taken < positions.len() {
                let delivery = message_at(chain_name, transaction, positions[taken as int]);
                &&& state.1 == WorkActionView::<E>::Send(delivery)
                &&& state.0.step(chain_name, WorkEventView::<E>::Sent(false)) == (
                    WorkerView {
                        scanner_running: worker.scanner_running,
                        stage: StageView::Stopped,
                    },
                    WorkActionView::<E>::Return {
                        cancel: Scope::Sentinel,
                        error: SentinelErrorView::SendMessageError(delivery.message.id),
                    },
                )
            } else if end == transaction.logs.len() {
                state == (
                    WorkerView {
                        scanner_running: worker.scanner_running,
                        stage: StageView::Listening,
                    },
                    WorkActionView::<E>::Listen { drive_scanner: worker.scanner_running },
                )
            } else {
                state == (
                    WorkerView {
                        scanner_running: worker.scanner_running,
                        stage: StageView::Stopped,
                    },
                    WorkActionView::<E>::Return {
                        cancel: Scope::Sentinel,
                        error: SentinelErrorView::ByteVecParsing(
                            transaction.logs[end]->0->CallContract_0.destination_chain,
                        ),
                    },
                )
            }
        }),
    decreases taken,
{
    sentinel::the_next_event_is_found(transaction.logs, from);
    if positions.len() == 0 {
        assert forall|i: int| from <= i < end implies transaction.logs[i] is None by {
            if transaction.logs[i] is Some {
                assert(positions.contains(i));
            }
        }
    } else {
        let first = positions[0];
        assert(is_deliverable(transaction, first));
        let found = sentinel::next_event(transaction.logs, from);
        assert(found == Some(first)) by {
            let i = found->0;
            assert(transaction.logs[first] is Some);
            assert(found is Some && i <= first);
            assert(positions.contains(i));
            let k = positions.index_of(i);
            assert(positions[k] == i);
        }
        if taken > 0 {
            let rest = positions.drop_first();
            assert(are_calls_between(transaction, first + 1, end, rest)) by {
                assert forall|k: int| 0 <= k < rest.len() implies {
                    &&& first + 1 <= #[trigger] rest[k] < end
                    &&& is_deliverable(transaction, rest[k])
                } by {
                    assert(rest[k] == positions[k + 1]);
                }
                assert forall|k: int, l: int| 0 <= k < l < rest.len() implies #[trigger] rest[k]
                    < #[trigger] rest[l] by {
                    assert(rest[k] == positions[k + 1] && rest[l] == positions[l + 1]);
                }
                assert forall|i: int|
                    first + 1 <= i < end && #[trigger] transaction.logs[i] is Some implies rest.contains(
                    i,
                ) by {
                    assert(positions.contains(i));
                    let k = positions.index_of(i);
                    assert(rest[k - 1] == i);
                }
            }
            let next = worker.proceed::<E>(chain_name, transaction, from).0;
            assert(next.step(chain_name, WorkEventView::<E>::Sent(true)) == worker.proceed::<E>(
                chain_name,
                transaction,
                first + 1,
            ));
            lemma_calls_in_order::<E>(
                worker,
                chain_name,
                transaction,
                first + 1,
                end,
                rest,
                (taken - 1) as nat,
            );
            assert(taken < positions.len() ==> positions[taken as int] == rest[taken - 1]);
        }
    }
}

/// Every contract call of a fetched transaction is handed to the verifier once and in the order of
/// the log, and nothing else is. `positions` are the log lines of the calls up to `end`. While the
/// verifier takes the messages, the message that follows the first `taken` of them is that of the
/// call at the next position, with the call's own contents. After the last, if `end` is the end of
/// the log, the worker listens again; if it is a call whose destination chain is not named in UTF-8,
/// the work ends with those bytes. A message that the verifier refuses ends the work with the
/// identifier of that log line.
pub proof fn every_call_is_delivered_in_order<E>(
    worker: WorkerView,
    chain_name: Seq<char>,
    transaction: SolanaTransactionView,
    end: int,
    positions: Seq<int>,
    taken: nat,
)
    requires
        worker.stage is Resolving,
        0 <= end <= transaction.logs.len(),
        forall|k: int|
            0 <= k < positions.len() ==> {
                &&& 0 <= #[trigger] positions[k] < end
                &&& transaction.logs[positions[k]] matches Some(GatewayEventView::CallContract(call))
                &&& vstd::utf8::valid_utf8(call.destination_chain)
            },
        forall|k: int, l: int|
            0 <= k < l < positions.len() ==> #[trigger] positions[k] < #[trigger] positions[l],
        forall|i: int|
            0 <= i < end && #[trigger] transaction.logs[i] is Some ==> positions.contains(i),
        taken <= positions.len(),
        taken == positions.len() && end < transaction.logs.len() ==> (transaction.logs[end] matches
            Some(GatewayEventView::CallContract(call)) && !vstd::utf8::valid_utf8(
            call.destination_chain,
        )),
    ensures
        ({
            let fetched = WorkEventView::<E>::Fetched(Ok(Ok(transaction)));
            let state = after_sends::<E>(chain_name, worker.step(chain_name, fetched), taken);
            if taken < positions.len() {
                let at = positions[taken as int];
                let id = message::message_id(chain_name, transaction.signature, at as nat);
                &&& state.1 matches WorkActionView::Send(delivery)
                &&& delivery.signature == transaction.signature
                &&& delivery.message.id == id
                &&& transaction.logs[at] matches Some(GatewayEventView::CallContract(call))
                &&& delivery == message::call_message(
                    chain_name,
                    transaction.signature,
                    at as nat,
                    call,
                )
                &&& delivery.message.payload == call.payload
                &&& state.0.step(chain_name, WorkEventView::<E>::Sent(false)) == (
                    WorkerView {
                        scanner_running: worker.scanner_running,
                        stage: StageView::Stopped,
                    },
                    WorkActionView::<E>::Return {
                        cancel: Scope::Sentinel,
                        error: SentinelErrorView::SendMessageError(id),
                    },
                )
            } else if end == transaction.logs.len() {
                state == (
                    WorkerView {
                        scanner_running: worker.scanner_running,
                        stage: StageView::Listening,
                    },
                    WorkActionView::<E>::Listen { drive_scanner: worker.scanner_running },
                )
            } else {
                &&& transaction.logs[end] matches Some(GatewayEventView::CallContract(call))
                &&& state == (
                    WorkerView {
                        scanner_running: worker.scanner_running,
                        stage: StageView::Stopped,
                    },
                    WorkActionView::<E>::Return {
                        cancel: Scope::Sentinel,
                        error: SentinelErrorView::ByteVecParsing(call.destination_chain),
                    },
                )
            }
        }),
{
    assert(are_calls_between(transaction, 0, end, positions));
    lemma_calls_in_order::<E>(worker, chain_name, transaction, 0, end, positions, taken);
}

/// While the messages of a transaction are handed over, the worker keeps the log line that comes
/// next: it lies right behind the one whose message was sent, and the transaction is the one that
/// was fetched.
pub proof fn the_place_in_the_log_is_kept<E>(
    worker: WorkerView,
    chain_name: Seq<char>,
    transaction: SolanaTransactionView,
    from: int,
    at: int,
)
    requires
        0 <= from <= at < transaction.logs.len(),
        forall|j: int| from <= j < at ==> #[trigger] transaction.logs[j] is None,
        is_deliverable(transaction, at),
    ensures
        worker.proceed::<E>(chain_name, transaction, from).0 == (WorkerView {
            scanner_running: worker.scanner_running,
            stage: StageView::Delivering {
                transaction,
                next: at + 1,
                id: message::message_id(chain_name, transaction.signature, at as nat),
            },
        }),
{
    sentinel::the_next_event_is_found(transaction.logs, from);
}

} // verus!
