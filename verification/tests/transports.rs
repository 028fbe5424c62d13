use axelar_solana::cancellation::{actor_tokens, transport_token, Scope};
use axelar_solana::channel::channel;
use axelar_solana::config;
use axelar_solana::message::{Message, SolanaToAxelarMessage};
use axelar_solana::sentinel::{RunEvent, RunOutcome, SentinelError, SolanaSentinel};
use axelar_solana::transports::{
    Actor, AxelarToSolanaAction, AxelarToSolanaEvent, AxelarToSolanaHandler, AxelarVerifier,
    Shutdown, SolanaToAxelarAction, SolanaToAxelarEvent, SolanaToAxelarHandler, SolanaToAxelarRun,
};
use axelar_solana::worker::Worker;
use solana_program::pubkey::Pubkey;
use url::Url;

fn parsed(text: &str) -> Url {
    Url::parse(text).unwrap()
}

fn handler() -> SolanaToAxelarHandler<String> {
    SolanaToAxelarHandler::new(
        config::SolanaSentinel {
            gateway_address: Pubkey::from([9; 32]),
            rpc: parsed("http://solana.example/rpc"),
        },
        config::AxelarVerifier { rpc: parsed("http://axelar.example/") },
        "state".to_string(),
    )
}

fn session(
    action: SolanaToAxelarAction<String>,
) -> (
    SolanaSentinel<String>,
    AxelarVerifier<String>,
    axelar_solana::cancellation::ScopedToken,
) {
    match action {
        SolanaToAxelarAction::Start { sentinel, verifier, token } => (sentinel, verifier, token),
        _ => panic!("no session was started"),
    }
}

#[test]
fn channels_hold_five_hundred_messages() {
    let (outbox, inbox) = channel::<u8>();
    assert_eq!(outbox.inner().max_capacity(), 500);
    let mut receiver = inbox.into_inner();
    assert_eq!(receiver.max_capacity(), 500);
    for i in 0..500 {
        assert!(outbox.inner().try_send((i % 256) as u8).is_ok());
    }
    assert!(outbox.inner().try_send(0).is_err());
    assert_eq!(receiver.try_recv(), Ok(0));
    assert_eq!(receiver.try_recv(), Ok(1));
}

#[test]
fn cancelling_the_root_stops_both_actors() {
    let root = transport_token();
    let (sentinel, verifier) = actor_tokens(&root);
    assert!(!root.inner().is_cancelled());
    assert!(!sentinel.inner().is_cancelled());
    assert!(!verifier.inner().is_cancelled());
    root.inner().cancel();
    assert!(sentinel.inner().is_cancelled());
    assert!(verifier.inner().is_cancelled());
}

#[test]
fn cancelling_an_actor_stays_with_it() {
    let root = transport_token();
    let (sentinel, verifier) = actor_tokens(&root);
    sentinel.inner().cancel();
    assert!(sentinel.inner().is_cancelled());
    assert!(!verifier.inner().is_cancelled());
    assert!(!root.inner().is_cancelled());
}

#[test]
fn session_is_set_up_as_configured() {
    let (run, action) = handler().run();
    assert_eq!(run, SolanaToAxelarRun::Running);
    let (sentinel, verifier, token) = session(action);
    assert_eq!(sentinel.gateway_address, Pubkey::from([9; 32]));
    assert_eq!(sentinel.rpc, parsed("http://solana.example/rpc"));
    assert_eq!(verifier.rpc, parsed("http://axelar.example/"));
    assert_eq!(sentinel.state, "state");
    assert_eq!(verifier.state, "state");
    assert_eq!(sentinel.verifier_channel.inner().max_capacity(), 500);
    token.inner().cancel();
    assert!(sentinel.cancellation_token.inner().is_cancelled());
    assert!(verifier.cancellation_token.inner().is_cancelled());
}

#[test]
fn sentinel_feeds_the_verifier() {
    let (sentinel, verifier, _token) = session(handler().run().1);
    let delivery = SolanaToAxelarMessage {
        message: Message {
            id: "id".to_string(),
            source_chain: String::new(),
            source_address: String::new(),
            destination_chain: String::new(),
            destination_address: String::new(),
            payload: vec![1],
        },
        signature: [4; 64],
    };
    assert!(sentinel.verifier_channel.inner().try_send(delivery).is_ok());
    let mut receiver = verifier.receiver.into_inner();
    let taken = receiver.try_recv().unwrap();
    assert_eq!(taken.message.id, "id");
    assert_eq!(taken.signature, [4; 64]);
}

#[test]
fn work_starts_the_scanner() {
    let (sentinel, _verifier, _token) = session(handler().run().1);
    let (setup, worker) = sentinel.work();
    assert_eq!(setup.gateway_address, Pubkey::from([9; 32]));
    assert_eq!(setup.rpc, parsed("http://solana.example/rpc"));
    assert_eq!(setup.state, "state");
    assert_eq!(setup.fetch_signatures_interval_secs, 5);
    assert_eq!(worker, Worker::new());
    sentinel.cancellation_token.inner().cancel();
    assert!(setup.cancellation_token.inner().is_cancelled());
}

#[test]
fn cancelling_the_root_stops_the_scanner() {
    let (sentinel, _verifier, token) = session(handler().run().1);
    let (setup, _worker) = sentinel.work();
    assert!(!setup.cancellation_token.inner().is_cancelled());
    token.inner().cancel();
    assert!(setup.cancellation_token.inner().is_cancelled());
}

#[test]
fn scanner_cancellation_leaves_the_sentinel_alone() {
    let (sentinel, _verifier, _token) = session(handler().run().1);
    let (setup, _worker) = sentinel.work();
    setup.cancellation_token.inner().cancel();
    assert!(!sentinel.cancellation_token.inner().is_cancelled());
}

#[test]
fn sentinel_end_reaches_the_scanner() {
    let events: Vec<(RunEvent<&str>, RunOutcome<&str>)> = vec![
        (RunEvent::CancellationSignalled, RunOutcome::Cancelled),
        (RunEvent::WorkReturned(Ok(())), RunOutcome::WorkerReturned),
        (
            RunEvent::WorkReturned(Err(SentinelError::Stopped)),
            RunOutcome::WorkerFailed(SentinelError::Stopped),
        ),
    ];
    for (event, outcome) in events {
        for running in [true, false] {
            let (sentinel, verifier, token) = session(handler().run().1);
            let (setup, _worker) = sentinel.work();
            let event = match &event {
                RunEvent::CancellationSignalled => RunEvent::CancellationSignalled,
                RunEvent::WorkReturned(Ok(())) => RunEvent::WorkReturned(Ok(())),
                RunEvent::WorkReturned(Err(_)) => {
                    RunEvent::WorkReturned(Err(SentinelError::Stopped))
                }
            };
            let returned = matches!(event, RunEvent::WorkReturned(_));
            let end = sentinel.run(event, running);
            assert_eq!(end.outcome, outcome);
            assert_eq!(end.await_scanner, running && returned);
            end.cancel.inner().cancel();
            assert!(setup.cancellation_token.inner().is_cancelled());
            assert!(!verifier.cancellation_token.inner().is_cancelled());
            assert!(!token.inner().is_cancelled());
        }
    }
}

#[test]
fn cancelled_sentinel_waits_for_nobody() {
    let (sentinel, _verifier, _token) = session(handler().run().1);
    let end = sentinel.run::<&str>(RunEvent::CancellationSignalled, true);
    assert!(!end.await_scanner);
}

#[test]
fn end_of_an_actor_shuts_the_session_down() {
    for (first, left) in
        [(Actor::Sentinel, Actor::Verifier), (Actor::Verifier, Actor::Sentinel)]
    {
        assert_eq!(first.other(), left);
        let (run, action) =
            handler().step(SolanaToAxelarRun::Running, SolanaToAxelarEvent::FirstEnded(first));
        assert_eq!(run, SolanaToAxelarRun::ShuttingDown(first));
        assert_eq!(run.remaining(), Some(left));
        match action {
            SolanaToAxelarAction::ShutDown { cancel, awaited, timeout_secs } => {
                assert_eq!((cancel, awaited, timeout_secs), (Scope::Transport, left, 30));
            }
            _ => panic!("the session has to be shut down"),
        }
    }
    assert_eq!(SolanaToAxelarRun::Running.remaining(), None);
    assert_eq!(SolanaToAxelarRun::Clearing.remaining(), None);
}

#[test]
fn session_restarts_whatever_the_shutdown_brought() {
    for outcome in [Shutdown::Finished, Shutdown::TimedOut] {
        let handler = handler();
        let (run, action) = handler.step(
            SolanaToAxelarRun::ShuttingDown(Actor::Verifier),
            SolanaToAxelarEvent::ShutdownOver(outcome),
        );
        assert_eq!(run, SolanaToAxelarRun::Clearing);
        assert!(matches!(action, SolanaToAxelarAction::DropActors));
        let (run, action) = handler.step(run, SolanaToAxelarEvent::ActorsDropped);
        assert_eq!(run, SolanaToAxelarRun::Running);
        let (_, _, token) = session(action);
        assert!(!token.inner().is_cancelled());
    }
}

#[test]
fn axelar_to_solana_sessions() {
    let handler = AxelarToSolanaHandler::new("approver", "includer", 1u8);
    assert_eq!((handler.approver, handler.includer, handler.state), ("approver", "includer", 1));
    let (mut run, mut action) = handler.run();
    for _ in 0..3 {
        match action {
            AxelarToSolanaAction::Start { approver, includer } => {
                assert_eq!(approver.sender.inner().max_capacity(), 500);
                assert!(approver.sender.inner().try_send(()).is_ok());
                assert_eq!(includer.receiver.into_inner().try_recv(), Ok(()));
            }
            AxelarToSolanaAction::AbortAll => panic!("a session has to start"),
        }
        assert_eq!(run.live, 2);
        for left in [1, 0] {
            (run, action) = handler.step(run, AxelarToSolanaEvent::ActorEnded);
            assert!(matches!(action, AxelarToSolanaAction::AbortAll));
            assert_eq!(run.live, left);
        }
        (run, action) = handler.step(run, AxelarToSolanaEvent::NoActorLeft);
    }
}
