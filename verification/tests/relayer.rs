use axelar_solana::config::{
    AxelarToSolana, AxelarVerifier, Config, Database, SocketAddress, SolanaSentinel,
    SolanaToAxelar,
};
use axelar_solana::relayer::{
    Connecting, Exit, Relayer, RelayerAction, StartupError, Transport,
};
use solana_program::pubkey::Pubkey;
use url::Url;

const ADDRESS: SocketAddress = SocketAddress::V4 { octets: [127, 0, 0, 1], port: 8000 };

fn parsed(text: &str) -> Url {
    Url::parse(text).unwrap()
}

fn config(axelar: bool, solana: bool) -> Config<u32, u64> {
    let axelar_to_solana =
        if axelar { Some(AxelarToSolana { approver: 11, includer: 22 }) } else { None };
    let solana_to_axelar = if solana {
        Some(SolanaToAxelar {
            sentinel: SolanaSentinel {
                gateway_address: Pubkey::from([3; 32]),
                rpc: parsed("http://solana.example/"),
            },
            verifier: AxelarVerifier { rpc: parsed("http://axelar.example/") },
        })
    } else {
        None
    };
    Config {
        axelar_to_solana,
        solana_to_axelar,
        database: Database { url: parsed("postgres://db.example/relayer") },
        healthcheck_bind_addr: ADDRESS,
    }
}

fn relayer(axelar: bool, solana: bool) -> Relayer<u32, u64, String> {
    Relayer::from_config(config(axelar, solana), "state".to_string())
}

#[test]
fn transports_are_built_as_configured() {
    for axelar in [true, false] {
        for solana in [true, false] {
            let relayer = relayer(axelar, solana);
            assert_eq!(relayer.health_check_server_addr, ADDRESS);
            assert_eq!(relayer.axelar_to_solana.is_some(), axelar);
            assert_eq!(relayer.solana_to_axelar.is_some(), solana);
            if let Some(handler) = relayer.axelar_to_solana {
                assert_eq!((handler.approver, handler.includer), (11, 22));
                assert_eq!(handler.state, "state");
            }
            if let Some(handler) = relayer.solana_to_axelar {
                assert_eq!(handler.sentinel.gateway_address, Pubkey::from([3; 32]));
                assert_eq!(handler.sentinel.rpc, parsed("http://solana.example/"));
                assert_eq!(handler.verifier.rpc, parsed("http://axelar.example/"));
                assert_eq!(handler.state, "state");
            }
        }
    }
}

#[test]
fn setup_in_three_steps() {
    let connecting = Connecting::validated::<&str>(config(true, true), Ok(())).ok().unwrap();
    assert_eq!(connecting.database().url, parsed("postgres://db.example/relayer"));
    let migrating = connecting.connected::<String, &str>(Ok("pool".to_string())).ok().unwrap();
    let relayer = migrating.migrated::<&str>(Ok(())).ok().unwrap();
    assert_eq!(relayer.axelar_to_solana.unwrap().state, "pool");
    assert_eq!(relayer.solana_to_axelar.unwrap().state, "pool");
}

#[test]
fn invalid_configuration() {
    let refused = Connecting::validated(config(false, false), Err("no transport"));
    let error = refused.err().unwrap();
    assert_eq!(error, StartupError::InvalidConfig("no transport"));
    assert_eq!(error.text("no transport"), "no transport");
}

#[test]
fn unreachable_database() {
    let connecting = Connecting::validated::<&str>(config(true, true), Ok(())).ok().unwrap();
    let refused = connecting.connected::<String, &str>(Err("refused"));
    let error = refused.err().unwrap();
    assert_eq!(error, StartupError::DatabaseConnection("refused"));
    assert_eq!(error.text("refused"), "Failed to connect to Relayer database");
}

#[test]
fn failed_migration() {
    let connecting = Connecting::validated::<&str>(config(true, true), Ok(())).ok().unwrap();
    let migrating = connecting.connected::<String, &str>(Ok("pool".to_string())).ok().unwrap();
    let error = migrating.migrated(Err("locked")).err().unwrap();
    assert_eq!(error, StartupError::DatabaseMigration("locked"));
    assert_eq!(error.text("locked"), "locked");
}

#[test]
fn failed_health_check_stops_the_relayer() {
    for axelar in [true, false] {
        for solana in [true, false] {
            let start = relayer(axelar, solana).run();
            assert_eq!(start.address, ADDRESS);
            assert!(matches!(
                start.resolved(false),
                RelayerAction::Leave(Exit::HealthCheckFailed)
            ));
        }
    }
}

#[test]
fn relayer_without_transports() {
    let action = relayer(false, false).run().resolved(true);
    assert!(matches!(action, RelayerAction::Leave(Exit::NoTransports)));
}

#[test]
fn relayer_with_one_transport() {
    match relayer(true, false).run().resolved(true) {
        RelayerAction::Spawn { transports, exit } => {
            assert_eq!(exit, Exit::OnlyTransportEnded);
            assert_eq!(transports.len(), 1);
            assert!(matches!(transports[0], Transport::AxelarToSolana(_)));
        }
        RelayerAction::Leave(_) => panic!("the transport has to be spawned"),
    }
    match relayer(false, true).run().resolved(true) {
        RelayerAction::Spawn { transports, exit } => {
            assert_eq!(exit, Exit::OnlyTransportEnded);
            assert_eq!(transports.len(), 1);
            assert!(matches!(transports[0], Transport::SolanaToAxelar(_)));
        }
        RelayerAction::Leave(_) => panic!("the transport has to be spawned"),
    }
}

#[test]
fn relayer_with_both_transports() {
    match relayer(true, true).run().resolved(true) {
        RelayerAction::Spawn { transports, exit } => {
            assert_eq!(exit, Exit::OneTransportEnded);
            assert_eq!(transports.len(), 2);
            assert!(matches!(transports[0], Transport::SolanaToAxelar(_)));
            assert!(matches!(transports[1], Transport::AxelarToSolana(_)));
        }
        RelayerAction::Leave(_) => panic!("the transports have to be spawned"),
    }
}
