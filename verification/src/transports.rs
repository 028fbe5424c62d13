//! The two transports: how each sets up its actors and restarts them when one of them ends.
use vstd::prelude::*;

use crate::cancellation::{Scope, ScopedToken};
use crate::channel::{Inbox, Outbox};
use crate::config;
use crate::message::SolanaToAxelarMessage;
use crate::sentinel::{ScannerSetup, SolanaSentinel};

verus! {

/// Seconds that the actors of the Solana-to-Axelar transport are given to shut down.
pub const TIMEOUT_SECS: u64 = 30;

/// How many actors a session of the Axelar-to-Solana transport spawns.
pub const AXELAR_TO_SOLANA_ACTORS: usize = 2;

/// The actor that takes approvals from Axelar.
pub struct ApproverActor {
    pub sender: Outbox<()>,
}

/// The actor that brings messages into Solana.
pub struct IncluderActor {
    pub receiver: Inbox<()>,
}

/// Whether the two actors are the ends of one channel of the usual capacity.
pub open spec fn connected(approver: ApproverActor, includer: IncluderActor) -> bool {
    &&& approver.sender.capacity() == crate::channel::CHANNEL_CAPACITY
    &&& includer.receiver.capacity() == crate::channel::CHANNEL_CAPACITY
    &&& approver.sender.peer() == includer.receiver.handle()
}

/// What happens to the actors of a session, as its join set tells it.
#[derive(Clone, Copy, Debug, PartialEq, Eq, Structural)]
pub enum AxelarToSolanaEvent {
    /// One of the actors has ended.
    ActorEnded,
    /// No actor is left.
    NoActorLeft,
}

/// What the transport wants done.
pub enum AxelarToSolanaAction {
    /// Spawn these two actors and wait for one to end.
    Start { approver: ApproverActor, includer: IncluderActor },
    /// Abort the actors that still run, and wait for the next to end.
    AbortAll,
}

/// A course of the Axelar-to-Solana transport.
#[derive(Clone, Copy, Debug, PartialEq, Eq, Structural)]
pub struct AxelarToSolanaRun {
    /// How many actors of the present session have not ended.
    pub live: usize,
}

impl AxelarToSolanaRun {
    /// Whether the join set can report this: an actor ends only if one is left.
    pub open spec fn accepts(self, event: AxelarToSolanaEvent) -> bool {
        match event {
            AxelarToSolanaEvent::ActorEnded => self.live > 0,
            AxelarToSolanaEvent::NoActorLeft => self.live == 0,
        }
    }

    /// The course after an event.
    pub open spec fn next(self, event: AxelarToSolanaEvent) -> AxelarToSolanaRun {
        match event {
            AxelarToSolanaEvent::ActorEnded => AxelarToSolanaRun { live: (self.live - 1) as usize },
            AxelarToSolanaEvent::NoActorLeft => AxelarToSolanaRun {
                live: AXELAR_TO_SOLANA_ACTORS,
            },
        }
    }
}

/// The transport from Axelar to Solana.
pub struct AxelarToSolanaHandler<A, I, S> {
    pub approver: A,
    pub includer: I,
    pub state: S,
}

impl<A, I, S> AxelarToSolanaHandler<A, I, S> {
    /// A transport with these settings for its actors.
    pub fn new(approver: A, includer: I, state: S) -> (handler: Self)
        ensures
            handler == (AxelarToSolanaHandler { approver, includer, state }),
    {
        AxelarToSolanaHandler { approver, includer, state }
    }

    /// Makes the actors of a session, connected by a channel.
    pub fn setup_actors(_approver_config: &A, _includer_config: &I) -> (actors: (
        ApproverActor,
        IncluderActor,
    ))
        ensures
            connected(actors.0, actors.1),
            actors.0.sender.capacity() == 500,
            actors.1.receiver.capacity() == 500,
            actors.0.sender.peer() == actors.1.receiver.handle(),
    {
        let (sender, receiver) = crate::channel::channel();
        (ApproverActor { sender }, IncluderActor { receiver })
    }

    /// Starts the transport with its first session.
    pub fn run(&self) -> (start: (AxelarToSolanaRun, AxelarToSolanaAction))
        ensures
            start.0.live == AXELAR_TO_SOLANA_ACTORS,
            start.1 matches AxelarToSolanaAction::Start { approver, includer } && connected(
                approver,
                includer,
            ),
    {
        let (approver, includer) = Self::setup_actors(&self.approver, &self.includer);
        (
            AxelarToSolanaRun { live: AXELAR_TO_SOLANA_ACTORS },
            AxelarToSolanaAction::Start { approver, includer },
        )
    }

    /// Goes on after an event: the end of one actor aborts the others, and when none is left a new
    /// session starts.
    pub fn step(&self, run: AxelarToSolanaRun, event: AxelarToSolanaEvent) -> (next: (
        AxelarToSolanaRun,
        AxelarToSolanaAction,
    ))
        requires
            run.accepts(event),
        ensures
            next.0 == run.next(event),
            event is ActorEnded ==> next.0.live == run.live - 1,
            event is NoActorLeft ==> next.0.live == 2,
            match event {
                AxelarToSolanaEvent::ActorEnded => next.1 is AbortAll,
                AxelarToSolanaEvent::NoActorLeft => {
                    next.1 matches AxelarToSolanaAction::Start { approver, includer } && connected(
                        approver,
                        includer,
                    )
                },
            },
    {
        match event {
            AxelarToSolanaEvent::ActorEnded => (
                AxelarToSolanaRun { live: run.live - 1 },
                AxelarToSolanaAction::AbortAll,
            ),
            AxelarToSolanaEvent::NoActorLeft => self.run(),
        }
    }
}

/// The course of the Axelar-to-Solana transport after a sequence of events.
pub open spec fn axelar_to_solana_after(events: Seq<AxelarToSolanaEvent>) -> AxelarToSolanaRun
    decreases events.len(),
{
    if events.len() == 0 {
        AxelarToSolanaRun { live: AXELAR_TO_SOLANA_ACTORS }
    } else {
        axelar_to_solana_after(events.drop_last()).next(events.last())
    }
}

/// Whether the join set can report this sequence of events.
pub open spec fn axelar_to_solana_accepts(events: Seq<AxelarToSolanaEvent>) -> bool
    decreases events.len(),
{
    events.len() == 0 || {
        &&& axelar_to_solana_accepts(events.drop_last())
        &&& axelar_to_solana_after(events.drop_last()).accepts(events.last())
    }
}

/// The Axelar-to-Solana transport runs forever in sessions of two actors: a session is over, and the
/// next starts, exactly when both of its actors have ended. So no actor of a session ever runs
/// beside one of the next.
pub proof fn axelar_to_solana_restarts_when_both_have_ended(events: Seq<AxelarToSolanaEvent>)
    requires
        axelar_to_solana_accepts(events),
    ensures
        axelar_to_solana_after(events).live == 2 - events.len() % 3,
        forall|i: int|
            0 <= i < events.len() ==> (#[trigger] events[i] == AxelarToSolanaEvent::NoActorLeft
                <==> i % 3 == 2),
    decreases events.len(),
{
    if events.len() > 0 {
        let earlier = events.drop_last();
        axelar_to_solana_restarts_when_both_have_ended(earlier);
        assert forall|i: int| 0 <= i < events.len() implies (#[trigger] events[i]
            == AxelarToSolanaEvent::NoActorLeft <==> i % 3 == 2) by {
            if i < earlier.len() {
                assert(earlier[i] == events[i]);
            }
        }
    }
}

/// The verifier, which hands messages to Axelar.
pub struct AxelarVerifier<S> {
    pub rpc: url::Url,
    pub receiver: Inbox<SolanaToAxelarMessage>,
    pub state: S,
    pub cancellation_token: ScopedToken,
}

impl<S> AxelarVerifier<S> {
    /// A verifier that takes its messages from this channel.
    pub fn new(
        rpc: url::Url,
        receiver: Inbox<SolanaToAxelarMessage>,
        state: S,
        cancellation_token: ScopedToken,
    ) -> (verifier: Self)
        ensures
            verifier == (AxelarVerifier { rpc, receiver, state, cancellation_token }),
    {
        AxelarVerifier { rpc, receiver, state, cancellation_token }
    }
}

/// One of the two actors of the Solana-to-Axelar transport.
#[derive(Clone, Copy, Debug, PartialEq, Eq, Structural)]
pub enum Actor {
    Sentinel,
    Verifier,
}

impl Actor {
    /// The actor that runs beside this one.
    pub open spec fn counterpart(self) -> Actor {
        match self {
            Actor::Sentinel => Actor::Verifier,
            Actor::Verifier => Actor::Sentinel,
        }
    }

    /// The actor that runs beside this one.
    pub fn other(self) -> (other: Actor)
        ensures
            other == self.counterpart(),
    {
        match self {
            Actor::Sentinel => Actor::Verifier,
            Actor::Verifier => Actor::Sentinel,
        }
    }
}

/// How waiting for an actor to shut down ended.
#[derive(Clone, Copy, Debug, PartialEq, Eq, Structural)]
pub enum Shutdown {
    /// The actor has ended.
    Finished,
    /// The actor has not ended within the timeout.
    TimedOut,
}

/// What happens to the actors of a session.
#[derive(Clone, Copy, Debug, PartialEq, Eq, Structural)]
pub enum SolanaToAxelarEvent {
    /// This actor was the first to end.
    FirstEnded(Actor),
    /// Waiting for the other actor is over.
    ShutdownOver(Shutdown),
    /// Nothing is left of the session's actors.
    ActorsDropped,
}

/// What the transport wants done.
pub enum SolanaToAxelarAction<S> {
    /// Run these two actors side by side and wait for the first to end. The token stops both.
    Start { sentinel: SolanaSentinel<S>, verifier: AxelarVerifier<S>, token: ScopedToken },
    /// Cancel the token of this scope, then drive the awaited actor on until it ends, for no longer
    /// than the timeout. The other actor has ended already.
    ShutDown { cancel: Scope, awaited: Actor, timeout_secs: u64 },
    /// Drop both actors, whether they have ended or not.
    DropActors,
}

/// A course of the Solana-to-Axelar transport.
#[derive(Clone, Copy, Debug, PartialEq, Eq, Structural)]
pub enum SolanaToAxelarRun {
    /// Both actors run.
    Running,
    /// This actor was the first to end, and the session is being shut down.
    ShuttingDown(Actor),
    /// The session is over, and its actors are being dropped.
    Clearing,
}

impl SolanaToAxelarRun {
    /// Whether this can happen now.
    pub open spec fn accepts(self, event: SolanaToAxelarEvent) -> bool {
        match self {
            SolanaToAxelarRun::Running => event is FirstEnded,
            SolanaToAxelarRun::ShuttingDown(_) => event is ShutdownOver,
            SolanaToAxelarRun::Clearing => event is ActorsDropped,
        }
    }

    /// The course after an event.
    pub open spec fn next(self, event: SolanaToAxelarEvent) -> SolanaToAxelarRun {
        match event {
            SolanaToAxelarEvent::FirstEnded(actor) => SolanaToAxelarRun::ShuttingDown(actor),
            SolanaToAxelarEvent::ShutdownOver(_) => SolanaToAxelarRun::Clearing,
            SolanaToAxelarEvent::ActorsDropped => SolanaToAxelarRun::Running,
        }
    }

    /// The actor that is still to be waited for while the session is being shut down.
    pub fn remaining(self) -> (left: Option<Actor>)
        ensures
            left == match self {
                SolanaToAxelarRun::Running => None,
                SolanaToAxelarRun::ShuttingDown(Actor::Sentinel) => Some(Actor::Verifier),
                SolanaToAxelarRun::ShuttingDown(Actor::Verifier) => Some(Actor::Sentinel),
                SolanaToAxelarRun::Clearing => None,
            },
    {
        match self {
            SolanaToAxelarRun::Running => None,
            SolanaToAxelarRun::ShuttingDown(first) => Some(first.other()),
            SolanaToAxelarRun::Clearing => None,
        }
    }
}

/// Whether a session is set up as configured: the sentinel feeds the verifier, each has a token of
/// its own under the session's, and each has a handle on the state.
pub open spec fn is_session<S: Clone>(
    sentinel_config: config::SolanaSentinel,
    verifier_config: config::AxelarVerifier,
    sentinel: SolanaSentinel<S>,
    verifier: AxelarVerifier<S>,
    token: ScopedToken,
) -> bool {
    &&& sentinel.gateway_address == sentinel_config.gateway_address
    &&& sentinel.rpc == sentinel_config.rpc
    &&& verifier.rpc == verifier_config.rpc
    &&& sentinel.verifier_channel.capacity() == crate::channel::CHANNEL_CAPACITY
    &&& verifier.receiver.capacity() == crate::channel::CHANNEL_CAPACITY
    &&& sentinel.verifier_channel.peer() == verifier.receiver.handle()
    &&& cloned(verifier.state, sentinel.state)
    &&& token.is_root()
    &&& token.scope() == Scope::Transport
    &&& sentinel.cancellation_token.is_child_of(token)
    &&& sentinel.cancellation_token.scope() == Scope::Sentinel
    &&& verifier.cancellation_token.is_child_of(token)
    &&& verifier.cancellation_token.scope() == Scope::Verifier
}

/// The transport from Solana to Axelar.
pub struct SolanaToAxelarHandler<S> {
    pub sentinel: config::SolanaSentinel,
    pub verifier: config::AxelarVerifier,
    pub state: S,
}

impl<S> SolanaToAxelarHandler<S> {
    /// A transport with these settings for its actors.
    pub fn new(
        sentinel: config::SolanaSentinel,
        verifier: config::AxelarVerifier,
        state: S,
    ) -> (handler: Self)
        ensures
            handler == (SolanaToAxelarHandler { sentinel, verifier, state }),
    {
        SolanaToAxelarHandler { sentinel, verifier, state }
    }
}

impl<S: Clone> SolanaToAxelarHandler<S> {
    /// Makes the actors of a session and the token that stops them both.
    pub fn setup_actors(
        sentinel_config: &config::SolanaSentinel,
        verifier_config: &config::AxelarVerifier,
        state: S,
    ) -> (session: (SolanaSentinel<S>, AxelarVerifier<S>, ScopedToken))
        ensures
            is_session(*sentinel_config, *verifier_config, session.0, session.1, session.2),
            session.1.state == state,
            cloned(state, session.0.state),
            session.0.gateway_address == sentinel_config.gateway_address,
            session.0.rpc == sentinel_config.rpc,
            session.1.rpc == verifier_config.rpc,
            session.0.verifier_channel.capacity() == 500,
            session.0.verifier_channel.peer() == session.1.receiver.handle(),
            session.2.is_root(),
            session.0.cancellation_token.is_child_of(session.2),
            session.1.cancellation_token.is_child_of(session.2),
    {
        let (sender, receiver) = crate::channel::channel();
        let token = crate::cancellation::transport_token();
        let (sentinel_token, verifier_token) = crate::cancellation::actor_tokens(&token);
        let sentinel = SolanaSentinel::new(
            sentinel_config.gateway_address,
            sentinel_config.rpc.clone(),
            sender,
            state.clone(),
            sentinel_token,
        );
        let verifier = AxelarVerifier::new(
            verifier_config.rpc.clone(),
            receiver,
            state,
            verifier_token,
        );
        (sentinel, verifier, token)
    }

    /// Whether this is what the transport wants done at this point of its course.
    pub open spec fn wants(self, run: SolanaToAxelarRun, action: SolanaToAxelarAction<S>) -> bool {
        match run {
            SolanaToAxelarRun::Running => {
                &&& action matches SolanaToAxelarAction::Start { sentinel, verifier, token }
                &&& is_session(self.sentinel, self.verifier, sentinel, verifier, token)
                &&& cloned(self.state, verifier.state)
            },
            SolanaToAxelarRun::ShuttingDown(first) => action == (SolanaToAxelarAction::<
                S,
            >::ShutDown {
                cancel: Scope::Transport,
                awaited: first.counterpart(),
                timeout_secs: TIMEOUT_SECS,
            }),
            SolanaToAxelarRun::Clearing => action is DropActors,
        }
    }

    /// Starts the transport with its first session.
    pub fn run(&self) -> (start: (SolanaToAxelarRun, SolanaToAxelarAction<S>))
        ensures
            start.0 == SolanaToAxelarRun::Running,
            self.wants(start.0, start.1),
    {
        let (sentinel, verifier, token) = Self::setup_actors(
            &self.sentinel,
            &self.verifier,
            self.state.clone(),
        );
        (
            SolanaToAxelarRun::Running,
            SolanaToAxelarAction::Start { sentinel, verifier, token },
        )
    }

    /// Goes on after an event: when one actor ends, whichever it is, the whole session is cancelled
    /// and the other actor gets time to shut down; after that, whether it did or not, both are
    /// dropped, and only then a new session is set up.
    pub fn step(&self, run: SolanaToAxelarRun, event: SolanaToAxelarEvent) -> (next: (
        SolanaToAxelarRun,
        SolanaToAxelarAction<S>,
    ))
        requires
            run.accepts(event),
        ensures
            next.0 == run.next(event),
            self.wants(next.0, next.1),
            match event {
                SolanaToAxelarEvent::FirstEnded(actor) => {
                    &&& next.0 == SolanaToAxelarRun::ShuttingDown(actor)
                    &&& next.1 matches SolanaToAxelarAction::ShutDown {
                        cancel,
                        awaited,
                        timeout_secs,
                    }
                    &&& cancel == Scope::Transport
                    &&& awaited != actor
                    &&& timeout_secs == 30
                },
                SolanaToAxelarEvent::ShutdownOver(_) => next.0 is Clearing && next.1 is DropActors,
                SolanaToAxelarEvent::ActorsDropped => {
                    &&& next.0 is Running
                    &&& next.1 matches SolanaToAxelarAction::Start { sentinel, verifier, token }
                    &&& is_session(self.sentinel, self.verifier, sentinel, verifier, token)
                    &&& cloned(self.state, verifier.state)
                },
            },
    {
        match event {
            SolanaToAxelarEvent::FirstEnded(actor) => (
                SolanaToAxelarRun::ShuttingDown(actor),
                SolanaToAxelarAction::ShutDown {
                    cancel: Scope::Transport,
                    awaited: actor.other(),
                    timeout_secs: TIMEOUT_SECS,
                },
            ),
            SolanaToAxelarEvent::ShutdownOver(_) => (
                SolanaToAxelarRun::Clearing,
                SolanaToAxelarAction::DropActors,
            ),
            SolanaToAxelarEvent::ActorsDropped => self.run(),
        }
    }
}

/// Cancelling a session's token stops both of its actors; an actor that cancels its own token
/// stops neither the other actor nor the session.
pub proof fn session_token_stops_both_actors<S: Clone>(
    sentinel_config: config::SolanaSentinel,
    verifier_config: config::AxelarVerifier,
    sentinel: SolanaSentinel<S>,
    verifier: AxelarVerifier<S>,
    token: ScopedToken,
)
    requires
        is_session(sentinel_config, verifier_config, sentinel, verifier, token),
    ensures
        token.reaches(sentinel.cancellation_token),
        token.reaches(verifier.cancellation_token),
        !sentinel.cancellation_token.reaches(verifier.cancellation_token),
        !sentinel.cancellation_token.reaches(token),
        !verifier.cancellation_token.reaches(sentinel.cancellation_token),
        !verifier.cancellation_token.reaches(token),
{
    crate::cancellation::session_cancellation(
        token,
        sentinel.cancellation_token,
        verifier.cancellation_token,
    );
}

/// Cancelling a session's token also stops the scanner that the sentinel's work has started.
pub proof fn session_token_stops_the_scanner<S: Clone>(
    sentinel_config: config::SolanaSentinel,
    verifier_config: config::AxelarVerifier,
    sentinel: SolanaSentinel<S>,
    verifier: AxelarVerifier<S>,
    token: ScopedToken,
    setup: ScannerSetup<S>,
)
    requires
        is_session(sentinel_config, verifier_config, sentinel, verifier, token),
        setup.cancellation_token.is_child_of(sentinel.cancellation_token),
    ensures
        token.reaches(setup.cancellation_token),
{
    crate::cancellation::session_cancellation(
        token,
        sentinel.cancellation_token,
        verifier.cancellation_token,
    );
    crate::cancellation::cancellation_reaches_descendants(
        token,
        sentinel.cancellation_token,
        setup.cancellation_token,
    );
}

/// The course of the Solana-to-Axelar transport after a sequence of events.
pub open spec fn solana_to_axelar_after(events: Seq<SolanaToAxelarEvent>) -> SolanaToAxelarRun
    decreases events.len(),
{
    if events.len() == 0 {
        SolanaToAxelarRun::Running
    } else {
        solana_to_axelar_after(events.drop_last()).next(events.last())
    }
}

/// Whether this sequence of events can happen.
pub open spec fn solana_to_axelar_accepts(events: Seq<SolanaToAxelarEvent>) -> bool
    decreases events.len(),
{
    events.len() == 0 || {
        &&& solana_to_axelar_accepts(events.drop_last())
        &&& solana_to_axelar_after(events.drop_last()).accepts(events.last())
    }
}

/// The Solana-to-Axelar transport runs forever, and sessions never overlap: between two of them
/// there is always a shutdown, and after it the old actors are dropped before the next session is
/// set up. An actor's end, the end of the shutdown and the dropping of the actors take turns.
pub proof fn solana_to_axelar_shuts_down_between_sessions(events: Seq<SolanaToAxelarEvent>)
    requires
        solana_to_axelar_accepts(events),
    ensures
        solana_to_axelar_after(events) is Running <==> events.len() % 3 == 0,
        solana_to_axelar_after(events) is ShuttingDown <==> events.len() % 3 == 1,
        forall|i: int|
            0 <= i < events.len() ==> {
                &&& #[trigger] events[i] is FirstEnded <==> i % 3 == 0
                &&& events[i] is ShutdownOver <==> i % 3 == 1
                &&& events[i] is ActorsDropped <==> i % 3 == 2
            },
    decreases events.len(),
{
    if events.len() > 0 {
        let earlier = events.drop_last();
        solana_to_axelar_shuts_down_between_sessions(earlier);
        assert forall|i: int| 0 <= i < events.len() implies {
            &&& #[trigger] events[i] is FirstEnded <==> i % 3 == 0
            &&& events[i] is ShutdownOver <==> i % 3 == 1
            &&& events[i] is ActorsDropped <==> i % 3 == 2
        } by {
            if i < earlier.len() {
                assert(earlier[i] == events[i]);
            }
        }
    }
}

/// An event and when it happens, in milliseconds.
pub struct Moment {
    pub event: SolanaToAxelarEvent,
    pub at: nat,
}

/// The events of a timed course.
pub open spec fn moment_events(moments: Seq<Moment>) -> Seq<SolanaToAxelarEvent> {
    moments.map_values(|moment: Moment| moment.event)
}

impl SolanaToAxelarRun {
    /// Whether what is wanted at this point, begun at `since`, can be done with at this moment.
    /// Sessions may last. Waiting for an actor ends when the actor does, or else with the timeout.
    /// Dropping the actors counts as taking no time.
    pub open spec fn may_last(self, since: nat, end: Moment) -> bool {
        match self {
            SolanaToAxelarRun::Running => since <= end.at,
            SolanaToAxelarRun::ShuttingDown(_) => {
                &&& since <= end.at <= since + 1000 * TIMEOUT_SECS
                &&& end.event == SolanaToAxelarEvent::ShutdownOver(Shutdown::TimedOut) ==> end.at
                    == since + 1000 * TIMEOUT_SECS
            },
            SolanaToAxelarRun::Clearing => end.at == since,
        }
    }
}

/// Whether this timed course can happen.
pub open spec fn is_timed_course(moments: Seq<Moment>) -> bool
    decreases moments.len(),
{
    moments.len() == 0 || {
        let earlier = moments.drop_last();
        let run = solana_to_axelar_after(moment_events(earlier));
        let since = if earlier.len() == 0 {
            0
        } else {
            earlier.last().at
        };
        &&& is_timed_course(earlier)
        &&& run.accepts(moments.last().event)
        &&& run.may_last(since, moments.last())
    }
}

/// The events of a timed course can happen.
proof fn lemma_timed_course_is_course(moments: Seq<Moment>)
    requires
        is_timed_course(moments),
    ensures
        solana_to_axelar_accepts(moment_events(moments)),
    decreases moments.len(),
{
    if moments.len() > 0 {
        let earlier = moments.drop_last();
        lemma_timed_course_is_course(earlier);
        assert(moment_events(moments).drop_last() =~= moment_events(earlier));
        assert(moment_events(moments).last() == moments.last().event);
    }
}

/// Each event of a timed course comes when what was wanted before it is done.
proof fn lemma_timed_course(moments: Seq<Moment>, i: int)
    requires
        is_timed_course(moments),
        0 < i < moments.len(),
    ensures
        solana_to_axelar_after(moment_events(moments).take(i)).may_last(
            moments[i - 1].at,
            moments[i],
        ),
    decreases moments.len(),
{
    let earlier = moments.drop_last();
    if i < earlier.len() {
        lemma_timed_course(earlier, i);
        assert(moment_events(moments).take(i) =~= moment_events(earlier).take(i));
    } else {
        assert(moment_events(moments).take(i) =~= moment_events(earlier));
    }
}

/// A failed session is replaced in time. From the end of the first actor on, the session's token is
/// cancelled and only the other actor is waited for. The wait is over when that actor ends, and
/// after the timeout at the latest; the actors are dropped then, and without further delay the next
/// session starts. So it starts no later than the timeout after the first actor's end.
pub proof fn next_session_starts_in_time<S: Clone>(
    handler: SolanaToAxelarHandler<S>,
    moments: Seq<Moment>,
    i: int,
    first: Actor,
)
    requires
        is_timed_course(moments),
        0 <= i,
        i + 2 < moments.len(),
        moments[i].event == SolanaToAxelarEvent::FirstEnded(first),
    ensures
        ({
            let events = moment_events(moments);
            let shutting_down = solana_to_axelar_after(events.take(i + 1));
            &&& forall|action: SolanaToAxelarAction<S>| #[trigger]
                handler.wants(shutting_down, action) ==> action == (SolanaToAxelarAction::<
                    S,
                >::ShutDown {
                    cancel: Scope::Transport,
                    awaited: first.counterpart(),
                    timeout_secs: TIMEOUT_SECS,
                })
            &&& moments[i + 1].event is ShutdownOver
            &&& moments[i + 2].event is ActorsDropped
            &&& solana_to_axelar_after(events.take(i + 3)) is Running
            &&& moments[i + 2].at == moments[i + 1].at
            &&& moments[i + 2].at <= moments[i].at + 1000 * TIMEOUT_SECS
            &&& moments[i + 2].at < moments[i].at + 1000 * TIMEOUT_SECS ==> moments[i + 1].event
                == SolanaToAxelarEvent::ShutdownOver(Shutdown::Finished)
        }),
{
    let events = moment_events(moments);
    lemma_timed_course_is_course(moments);
    lemma_timed_course(moments, i + 1);
    lemma_timed_course(moments, i + 2);
    solana_to_axelar_shuts_down_between_sessions(events);
    assert(events[i] == moments[i].event);
    assert(events[i + 1] == moments[i + 1].event);
    assert(events[i + 2] == moments[i + 2].event);
    let one = events.take(i + 1);
    let two = events.take(i + 2);
    let three = events.take(i + 3);
    assert(one.last() == events[i]);
    assert(two.drop_last() =~= one);
    assert(three.drop_last() =~= two);
}

/// In every session the parts are wired as configured: the sentinel watches the configured address
/// through its own node, the verifier talks to its own node, the messages of the sentinel arrive at
/// the verifier through a channel that holds 500 of them, and both hold handles on one state.
pub proof fn sessions_are_wired_as_configured<S: Clone>(
    sentinel_config: config::SolanaSentinel,
    verifier_config: config::AxelarVerifier,
    sentinel: SolanaSentinel<S>,
    verifier: AxelarVerifier<S>,
    token: ScopedToken,
)
    requires
        is_session(sentinel_config, verifier_config, sentinel, verifier, token),
    ensures
        sentinel.gateway_address == sentinel_config.gateway_address,
        sentinel.rpc == sentinel_config.rpc,
        verifier.rpc == verifier_config.rpc,
        sentinel.verifier_channel.peer() == verifier.receiver.handle(),
        sentinel.verifier_channel.capacity() == 500,
        verifier.receiver.capacity() == 500,
        cloned(verifier.state, sentinel.state),
{
}

/// The approver feeds the includer through a channel that holds 500 messages.
pub proof fn approver_feeds_includer(approver: ApproverActor, includer: IncluderActor)
    requires
        connected(approver, includer),
    ensures
        approver.sender.peer() == includer.receiver.handle(),
        approver.sender.capacity() == 500,
        includer.receiver.capacity() == 500,
{
}

/// What a transport from Solana to Axelar wants done at each point of its course. While both actors
/// run it is a session of its own settings. When one has ended, it is the cancellation of the whole
/// session and a wait of 30 seconds at most for the other. After that the actors are dropped.
pub proof fn what_the_transport_wants<S: Clone>(
    handler: SolanaToAxelarHandler<S>,
    run: SolanaToAxelarRun,
    action: SolanaToAxelarAction<S>,
)
    requires
        handler.wants(run, action),
    ensures
        run is Running <==> action is Start,
        run is ShuttingDown <==> action is ShutDown,
        run is Clearing <==> action is DropActors,
        action matches SolanaToAxelarAction::Start { sentinel, verifier, token } ==> {
            &&& is_session(handler.sentinel, handler.verifier, sentinel, verifier, token)
            &&& cloned(handler.state, verifier.state)
        },
        action matches SolanaToAxelarAction::ShutDown { cancel, awaited, timeout_secs } ==> {
            &&& cancel == Scope::Transport
            &&& run != SolanaToAxelarRun::ShuttingDown(awaited)
            &&& timeout_secs == 30
        },
{
}

} // verus!
