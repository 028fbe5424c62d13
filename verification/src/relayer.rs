//! The relayer: how it starts up from its configuration and runs its transports.
use vstd::prelude::*;
use vstd::string::*;

use crate::config::{Config, Database, SocketAddress};
use crate::transports::{AxelarToSolanaHandler, SolanaToAxelarHandler};

verus! {

/// Why the relayer could not be set up. `E` is the type of the errors of the single steps.
#[derive(Debug, PartialEq, Eq)]
pub enum StartupError<E> {
    /// The configuration is not valid.
    InvalidConfig(E),
    /// The relayer's database could not be connected to.
    DatabaseConnection(E),
    /// The database could not be migrated.
    DatabaseMigration(E),
}

/// The text of a [`StartupError`], where `cause` is the text of the failed step's own error: a
/// failed connection is reported as such, the other errors as they are.
pub open spec fn startup_message<E>(error: StartupError<E>, cause: Seq<char>) -> Seq<char> {
    match error {
        StartupError::DatabaseConnection(_) => "Failed to connect to Relayer database"@,
        _ => cause,
    }
}

impl<E> StartupError<E> {
    /// The text of the error, where `cause` is the text of the failed step's own error.
    pub fn text(&self, cause: &str) -> (text: String)
        ensures
            text@ == startup_message(*self, cause@),
            self is DatabaseConnection ==> text@ == "Failed to connect to Relayer database"@,
            !(self is DatabaseConnection) ==> text@ == cause@,
    {
        match self {
            StartupError::DatabaseConnection(_) => {
                "Failed to connect to Relayer database".to_owned()
            },
            _ => cause.to_owned(),
        }
    }
}

/// A relayer whose configuration is valid and whose database is to be connected to.
pub struct Connecting<A, I> {
    pub config: Config<A, I>,
}

/// A relayer that is connected to its database, which is to be migrated.
pub struct Migrating<A, I, S> {
    pub config: Config<A, I>,
    pub state: S,
}

/// What the outcome of the validation leads to.
pub open spec fn after_validation<A, I, E>(
    config: Config<A, I>,
    outcome: Result<(), E>,
) -> Result<Connecting<A, I>, StartupError<E>> {
    match outcome {
        Ok(_) => Ok(Connecting { config }),
        Err(error) => Err(StartupError::InvalidConfig(error)),
    }
}

/// What the outcome of the connection leads to.
pub open spec fn after_connection<A, I, S, E>(
    stage: Connecting<A, I>,
    outcome: Result<S, E>,
) -> Result<Migrating<A, I, S>, StartupError<E>> {
    match outcome {
        Ok(state) => Ok(Migrating { config: stage.config, state }),
        Err(error) => Err(StartupError::DatabaseConnection(error)),
    }
}

/// Whether the outcome of the migration leads to this: the relayer of the configuration, or an
/// error.
pub open spec fn is_after_migration<A, I, S: Clone, E>(
    stage: Migrating<A, I, S>,
    outcome: Result<(), E>,
    ready: Result<Relayer<A, I, S>, StartupError<E>>,
) -> bool {
    match outcome {
        Ok(_) => ready matches Ok(relayer) && is_relayer_of(relayer, stage.config, stage.state),
        Err(error) => ready == Err::<Relayer<A, I, S>, StartupError<E>>(
            StartupError::DatabaseMigration(error),
        ),
    }
}

impl<A, I> Connecting<A, I> {
    /// Begins the setup with the outcome of the configuration's validation.
    pub fn validated<E>(config: Config<A, I>, outcome: Result<(), E>) -> (next: Result<
        Self,
        StartupError<E>,
    >)
        ensures
            next == after_validation(config, outcome),
            outcome is Ok ==> (next matches Ok(stage) && stage.config == config),
            outcome matches Err(error) ==> next == Err::<Self, StartupError<E>>(
                StartupError::InvalidConfig(error),
            ),
    {
        match outcome {
            Ok(_) => Ok(Connecting { config }),
            Err(error) => Err(StartupError::InvalidConfig(error)),
        }
    }

    /// The database to connect to.
    pub fn database(&self) -> (database: &Database)
        ensures
            *database == self.config.database,
    {
        &self.config.database
    }

    /// Goes on with the outcome of the connection.
    pub fn connected<S, E>(self, outcome: Result<S, E>) -> (next: Result<
        Migrating<A, I, S>,
        StartupError<E>,
    >)
        ensures
            next == after_connection(self, outcome),
            outcome matches Ok(state) ==> (next matches Ok(stage) && stage.config == self.config
                && stage.state == state),
            outcome matches Err(error) ==> next == Err::<Migrating<A, I, S>, StartupError<E>>(
                StartupError::DatabaseConnection(error),
            ),
    {
        match outcome {
            Ok(state) => Ok(Migrating { config: self.config, state }),
            Err(error) => Err(StartupError::DatabaseConnection(error)),
        }
    }
}

impl<A, I, S: Clone> Migrating<A, I, S> {
    /// Completes the setup with the outcome of the migration.
    pub fn migrated<E>(self, outcome: Result<(), E>) -> (ready: Result<
        Relayer<A, I, S>,
        StartupError<E>,
    >)
        ensures
            is_after_migration(self, outcome, ready),
            outcome is Ok ==> (ready matches Ok(relayer) && is_relayer_of(
                relayer,
                self.config,
                self.state,
            )),
            outcome matches Err(error) ==> ready == Err::<Relayer<A, I, S>, StartupError<E>>(
                StartupError::DatabaseMigration(error),
            ),
    {
        match outcome {
            Ok(_) => Ok(Relayer::from_config(self.config, self.state)),
            Err(error) => Err(StartupError::DatabaseMigration(error)),
        }
    }
}

/// The relayer.
pub struct Relayer<A, I, S> {
    pub axelar_to_solana: Option<AxelarToSolanaHandler<A, I, S>>,
    pub solana_to_axelar: Option<SolanaToAxelarHandler<S>>,
    pub health_check_server_addr: SocketAddress,
}

/// Whether a relayer is the one of this configuration: it has exactly the configured transports,
/// each with its settings and a handle on the state.
pub open spec fn is_relayer_of<A, I, S: Clone>(
    relayer: Relayer<A, I, S>,
    config: Config<A, I>,
    state: S,
) -> bool {
    &&& match config.axelar_to_solana {
        Some(settings) => {
            &&& relayer.axelar_to_solana matches Some(handler)
            &&& handler.approver == settings.approver
            &&& handler.includer == settings.includer
            &&& cloned(state, handler.state)
        },
        None => relayer.axelar_to_solana is None,
    }
    &&& relayer.solana_to_axelar == match config.solana_to_axelar {
        Some(settings) => Some(
            SolanaToAxelarHandler {
                sentinel: settings.sentinel,
                verifier: settings.verifier,
                state,
            },
        ),
        None => None,
    }
    &&& relayer.health_check_server_addr == config.healthcheck_bind_addr
}

/// The handler of one of the two transports.
pub enum Transport<A, I, S> {
    AxelarToSolana(AxelarToSolanaHandler<A, I, S>),
    SolanaToAxelar(SolanaToAxelarHandler<S>),
}

/// Why the relayer has stopped.
#[derive(Clone, Copy, Debug, PartialEq, Eq, Structural)]
pub enum Exit {
    /// The health check server could not be started.
    HealthCheckFailed,
    /// No transport is configured.
    NoTransports,
    /// The only transport has ended.
    OnlyTransportEnded,
    /// One of the two transports has ended, which cannot be recovered from.
    OneTransportEnded,
}

/// What the relayer wants done.
pub enum RelayerAction<A, I, S> {
    /// Spawn these transports in this order, wait until the first of them ends and leave for this
    /// reason, which stops the others.
    Spawn { transports: Vec<Transport<A, I, S>>, exit: Exit },
    /// Leave for this reason at once.
    Leave(Exit),
}

/// A relayer whose health check server is to be started at `address`.
pub struct HealthCheckStart<A, I, S> {
    pub address: SocketAddress,
    pub transports: Vec<Transport<A, I, S>>,
}

/// Why the relayer leaves when the first of this many transports has ended.
pub open spec fn exit_reason(transports: nat) -> Exit {
    if transports == 0 {
        Exit::NoTransports
    } else if transports == 1 {
        Exit::OnlyTransportEnded
    } else {
        Exit::OneTransportEnded
    }
}

impl<A, I, S> Relayer<A, I, S> {
    /// The configured transports in the order in which they are spawned.
    pub open spec fn transports(self) -> Seq<Transport<A, I, S>> {
        let solana_to_axelar = match self.solana_to_axelar {
            Some(handler) => seq![Transport::SolanaToAxelar(handler)],
            None => Seq::empty(),
        };
        match self.axelar_to_solana {
            Some(handler) => solana_to_axelar.push(Transport::AxelarToSolana(handler)),
            None => solana_to_axelar,
        }
    }

    /// Starts the relayer: its health check server comes first.
    pub fn run(self) -> (start: HealthCheckStart<A, I, S>)
        ensures
            start.address == self.health_check_server_addr,
            start.transports@ == self.transports(),
            start.transports.len() == (if self.solana_to_axelar is Some {
                1int
            } else {
                0
            }) + (if self.axelar_to_solana is Some {
                1int
            } else {
                0
            }),
            self.solana_to_axelar matches Some(handler) ==> start.transports@[0]
                == Transport::<A, I, S>::SolanaToAxelar(handler),
            self.axelar_to_solana matches Some(handler) ==> start.transports@.last()
                == Transport::<A, I, S>::AxelarToSolana(handler),
    {
        let mut transports: Vec<Transport<A, I, S>> = Vec::new();
        if let Some(handler) = self.solana_to_axelar {
            transports.push(Transport::SolanaToAxelar(handler));
        }
        if let Some(handler) = self.axelar_to_solana {
            transports.push(Transport::AxelarToSolana(handler));
        }
        assert(transports@ =~= self.transports());
        HealthCheckStart { address: self.health_check_server_addr, transports }
    }
}

impl<A, I, S: Clone> Relayer<A, I, S> {
    /// Builds the relayer of a configuration on a state that is ready for use.
    pub fn from_config(config: Config<A, I>, state: S) -> (relayer: Self)
        ensures
            is_relayer_of(relayer, config, state),
            relayer.health_check_server_addr == config.healthcheck_bind_addr,
            relayer.solana_to_axelar is Some <==> config.solana_to_axelar is Some,
            relayer.solana_to_axelar matches Some(handler) ==> {
                &&& handler.sentinel == config.solana_to_axelar->0.sentinel
                &&& handler.verifier == config.solana_to_axelar->0.verifier
                &&& handler.state == state
            },
            relayer.axelar_to_solana is Some <==> config.axelar_to_solana is Some,
            relayer.axelar_to_solana matches Some(handler) ==> {
                &&& handler.approver == config.axelar_to_solana->0.approver
                &&& handler.includer == config.axelar_to_solana->0.includer
                &&& cloned(state, handler.state)
            },
    {
        let axelar_to_solana = match config.axelar_to_solana {
            Some(settings) => Some(
                AxelarToSolanaHandler::new(settings.approver, settings.includer, state.clone()),
            ),
            None => None,
        };
        let solana_to_axelar = match config.solana_to_axelar {
            Some(settings) => Some(
                SolanaToAxelarHandler::new(settings.sentinel, settings.verifier, state),
            ),
            None => None,
        };
        Relayer {
            axelar_to_solana,
            solana_to_axelar,
            health_check_server_addr: config.healthcheck_bind_addr,
        }
    }
}

impl<A, I, S> HealthCheckStart<A, I, S> {
    /// Goes on when the health check server has been started or could not be.
    pub fn resolved(self, started: bool) -> (action: RelayerAction<A, I, S>)
        ensures
            action == if !started {
                RelayerAction::Leave(Exit::HealthCheckFailed)
            } else if self.transports.len() == 0 {
                RelayerAction::Leave(Exit::NoTransports)
            } else {
                RelayerAction::Spawn {
                    transports: self.transports,
                    exit: exit_reason(self.transports.len() as nat),
                }
            },
            action matches RelayerAction::Spawn { transports, exit } ==> {
                &&& started
                &&& transports@ == self.transports@
                &&& exit == Exit::OnlyTransportEnded <==> transports.len() == 1
                &&& exit == Exit::OneTransportEnded <==> transports.len() > 1
            },
            action matches RelayerAction::Leave(exit) ==> {
                &&& exit == Exit::HealthCheckFailed <==> !started
                &&& exit == Exit::NoTransports <==> started && self.transports.len() == 0
            },
            action is Spawn <==> started && self.transports.len() > 0,
    {
        let n: usize = self.transports.len();
        if !started {
            RelayerAction::Leave(Exit::HealthCheckFailed)
        } else if n == 0 {
            RelayerAction::Leave(Exit::NoTransports)
        } else if n == 1 {
            RelayerAction::Spawn { transports: self.transports, exit: Exit::OnlyTransportEnded }
        } else {
            RelayerAction::Spawn { transports: self.transports, exit: Exit::OneTransportEnded }
        }
    }
}

/// A relayer built from a configuration spawns as many transports as are configured, and so the
/// reason for which it leaves tells how many there are.
pub proof fn configured_transports_are_spawned<A, I, S: Clone>(
    relayer: Relayer<A, I, S>,
    config: Config<A, I>,
    state: S,
)
    requires
        is_relayer_of(relayer, config, state),
    ensures
        relayer.transports().len() == (if config.axelar_to_solana is Some {
            1int
        } else {
            0
        }) + (if config.solana_to_axelar is Some {
            1int
        } else {
            0
        }),
        exit_reason(relayer.transports().len()) == Exit::NoTransports
            <==> config.axelar_to_solana is None && config.solana_to_axelar is None,
        exit_reason(relayer.transports().len()) == Exit::OneTransportEnded
            <==> config.axelar_to_solana is Some && config.solana_to_axelar is Some,
{
}

/// The setup takes its steps in order and ends at the first that fails, with that step's error. If
/// none fails, it ends with the relayer of the configuration on the connected state.
pub proof fn setup_ends_at_first_failure<A, I, S: Clone, E>(
    config: Config<A, I>,
    validation: Result<(), E>,
    connection: Result<S, E>,
    migration: Result<(), E>,
    ready: Result<Relayer<A, I, S>, StartupError<E>>,
)
    requires
        match after_validation(config, validation) {
            Err(error) => ready == Err::<Relayer<A, I, S>, StartupError<E>>(error),
            Ok(connecting) => match after_connection(connecting, connection) {
                Err(error) => ready == Err::<Relayer<A, I, S>, StartupError<E>>(error),
                Ok(migrating) => is_after_migration(migrating, migration, ready),
            },
        },
    ensures
        ready is Ok <==> validation is Ok && connection is Ok && migration is Ok,
        ready matches Ok(relayer) ==> is_relayer_of(relayer, config, connection->Ok_0),
        ready matches Err(StartupError::InvalidConfig(error)) ==> validation
            == Err::<(), E>(error),
        ready matches Err(StartupError::DatabaseConnection(error)) ==> validation is Ok
            && connection == Err::<S, E>(error),
        ready matches Err(StartupError::DatabaseMigration(error)) ==> validation is Ok
            && connection is Ok && migration == Err::<(), E>(error),
{
}

/// The transports that a relayer spawns are its own handlers, unchanged: each handler that it has is
/// among them, once, and there are no others. The transport from Solana to Axelar comes first.
pub proof fn spawned_transports_are_the_handlers<A, I, S>(relayer: Relayer<A, I, S>)
    ensures
        relayer.solana_to_axelar matches Some(handler) ==> exists|i: int|
            0 <= i < relayer.transports().len() && #[trigger] relayer.transports()[i]
                == Transport::<A, I, S>::SolanaToAxelar(handler),
        relayer.axelar_to_solana matches Some(handler) ==> exists|i: int|
            0 <= i < relayer.transports().len() && #[trigger] relayer.transports()[i]
                == Transport::<A, I, S>::AxelarToSolana(handler),
        forall|i: int|
            0 <= i < relayer.transports().len() ==> match #[trigger] relayer.transports()[i] {
                Transport::SolanaToAxelar(handler) => relayer.solana_to_axelar == Some(handler),
                Transport::AxelarToSolana(handler) => relayer.axelar_to_solana == Some(handler),
            },
        forall|i: int, j: int|
            0 <= i < j < relayer.transports().len() ==> #[trigger] relayer.transports()[i] is
                SolanaToAxelar && #[trigger] relayer.transports()[j] is AxelarToSolana,
{
    let all = relayer.transports();
    if let Some(handler) = relayer.solana_to_axelar {
        assert(all[0] == Transport::<A, I, S>::SolanaToAxelar(handler));
    }
    if let Some(handler) = relayer.axelar_to_solana {
        assert(all[all.len() - 1] == Transport::<A, I, S>::AxelarToSolana(handler));
    }
}

/// Each transport that a relayer of a configuration spawns has the settings that are configured for
/// it: the sentinel those of the sentinel, the verifier those of the verifier, approver and includer
/// theirs. The health check server listens where it was told to.
pub proof fn spawned_transports_have_their_settings<A, I, S: Clone>(
    relayer: Relayer<A, I, S>,
    config: Config<A, I>,
    state: S,
)
    requires
        is_relayer_of(relayer, config, state),
    ensures
        forall|i: int|
            0 <= i < relayer.transports().len() ==> match #[trigger] relayer.transports()[i] {
                Transport::SolanaToAxelar(handler) => {
                    &&& config.solana_to_axelar matches Some(settings)
                    &&& handler.sentinel.gateway_address == settings.sentinel.gateway_address
                    &&& handler.sentinel.rpc == settings.sentinel.rpc
                    &&& handler.verifier.rpc == settings.verifier.rpc
                    &&& handler.state == state
                },
                Transport::AxelarToSolana(handler) => {
                    &&& config.axelar_to_solana matches Some(settings)
                    &&& handler.approver == settings.approver
                    &&& handler.includer == settings.includer
                    &&& cloned(state, handler.state)
                },
            },
        relayer.health_check_server_addr == config.healthcheck_bind_addr,
{
    spawned_transports_are_the_handlers(relayer);
}

/// The configuration goes through the setup unchanged, and so does the state that was connected to.
pub proof fn setup_keeps_the_configuration<A, I, S, E>(
    config: Config<A, I>,
    validation: Result<(), E>,
    connection: Result<S, E>,
)
    ensures
        after_validation(config, validation) matches Ok(connecting) ==> {
            &&& connecting.config == config
            &&& after_connection(connecting, connection) matches Ok(migrating) ==> {
                &&& migrating.config == config
                &&& connection == Ok::<S, E>(migrating.state)
            }
        },
{
}

/// The text of an error of the setup is that of the failed step, save that a failed connection has a
/// text of its own, whatever caused it.
pub proof fn startup_messages<E>(error: StartupError<E>, cause1: Seq<char>, cause2: Seq<char>)
    ensures
        error is DatabaseConnection ==> startup_message(error, cause1)
            == "Failed to connect to Relayer database"@,
        error is DatabaseConnection ==> startup_message(error, cause1) == startup_message(
            error,
            cause2,
        ),
        error is InvalidConfig || error is DatabaseMigration ==> startup_message(error, cause1)
            == cause1,
{
}

} // verus!
