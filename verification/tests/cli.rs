use std::path::PathBuf;

use axelar_solana::cli::{
    initialization, Cli, Cosmwasm, CosmwasmInit, CosmwasmTask, Evm, EvmAddress, EvmTask, Solana, SolanaContract,
    SolanaInitSubcommand, SolanaTask, Task,
};
use axelar_solana::encoding::HexError;
use axelar_solana::keys::{parse_private_key, KeyError};
use url::Url;

const ONE: &str = "0000000000000000000000000000000000000000000000000000000000000001";
const ORDER: &str = "fffffffffffffffffffffffffffffffebaaedce6af48a03bbfd25e8cd0364141";
const ORDER_MINUS_ONE: &str = "FFFFFFFFFFFFFFFFFFFFFFFFFFFFFFFEBAAEDCE6AF48A03BBFD25E8CD0364140";
const GENERATOR: &str = "0279be667ef9dcbbac55a06295ce870b07029bfcdb2dce28d959f2815b16f81798";

fn public_key(private_key_hex: &str) -> String {
    match parse_private_key(private_key_hex) {
        Ok(key) => hex::encode(key.public_key().to_bytes()),
        Err(error) => panic!("{:?}", error),
    }
}

fn run(command: Cosmwasm) -> Result<CosmwasmTask, KeyError> {
    let cli: Cli<String> = Cli::Cosmwasm { command };
    match cli.run() {
        Ok(Task::Cosmwasm(task)) => Ok(task),
        Ok(_) => panic!("the task is for another chain"),
        Err(error) => Err(error),
    }
}

#[test]
fn keys_are_read() {
    assert_eq!(public_key(ONE), GENERATOR);
    assert_eq!(public_key(&ONE[16..]), GENERATOR);
    assert_ne!(public_key(ORDER_MINUS_ONE), GENERATOR);
}

#[test]
fn negated_generator() {
    assert_eq!(public_key(ORDER_MINUS_ONE)[2..], GENERATOR[2..]);
    assert_eq!(public_key(ORDER_MINUS_ONE)[..2], *"03");
}

fn refusal(text: &str) -> KeyError {
    match parse_private_key(text) {
        Ok(_) => panic!("the key has to be refused"),
        Err(error) => error,
    }
}

#[test]
fn keys_are_refused() {
    let zero = "00".repeat(32);
    let long = "01".repeat(33);
    let short = "01".repeat(23);
    for text in [ORDER, zero.as_str(), long.as_str(), short.as_str(), ""] {
        let error = refusal(text);
        assert!(matches!(error, KeyError::InvalidPrivateKey(_)));
        assert_eq!(error.text(), "invalid secp256k1 private key");
    }
}

#[test]
fn texts_that_are_not_hexadecimal() {
    let odd = refusal("abc");
    assert!(matches!(odd, KeyError::Hex(HexError::OddLength)));
    assert_eq!(odd.text(), "Odd number of digits");
    let letter = refusal("01g0");
    assert!(matches!(
        letter,
        KeyError::Hex(HexError::InvalidHexCharacter { c: 'g', index: 2 })
    ));
    assert_eq!(letter.text(), "Invalid character 'g' at position 2");
    let accent = refusal("0é1");
    assert!(matches!(
        accent,
        KeyError::Hex(HexError::InvalidHexCharacter { c: '\u{c3}', index: 1 })
    ));
    assert!(matches!(refusal("é1"), KeyError::Hex(HexError::OddLength)));
    let unfilled = KeyError::Hex(HexError::InvalidStringLength);
    assert_eq!(unfilled.text(), "Invalid string length");
}

#[test]
fn cosmwasm_without_key() {
    assert!(matches!(run(Cosmwasm::Build), Ok(CosmwasmTask::Build)));
    assert!(matches!(run(Cosmwasm::GenerateWallet), Ok(CosmwasmTask::GenerateWallet)));
}

#[test]
fn cosmwasm_deploy() {
    match run(Cosmwasm::Deploy { private_key_hex: ONE.to_string() }) {
        Ok(CosmwasmTask::Deploy { signing_key }) => {
            let public = signing_key.public_key().to_bytes();
            assert_eq!(hex::encode(public), GENERATOR);
        }
        _ => panic!("the key has to be read"),
    }
    let refused = run(Cosmwasm::Deploy { private_key_hex: ORDER.to_string() });
    assert_eq!(refused.err().unwrap().text(), "invalid secp256k1 private key");
}

fn init(private_key_hex: &str, command: CosmwasmInit) -> Result<CosmwasmTask, KeyError> {
    run(Cosmwasm::Init { code_id: 7, private_key_hex: private_key_hex.to_string(), command })
}

fn init_commands() -> Vec<CosmwasmInit> {
    vec![
        CosmwasmInit::VotingVerifier { chain_name: "solana".to_string() },
        CosmwasmInit::Gateway { voting_verifier_address: "axelar1v".to_string() },
        CosmwasmInit::MultisigProver {
            chain_id: 8,
            gateway_address: "axelar1g".to_string(),
            voting_verifier_address: "axelar1v".to_string(),
            chain_name: "solana".to_string(),
        },
    ]
}

#[test]
fn cosmwasm_init() {
    let mut seen = 0;
    for command in init_commands() {
        match init(ONE, command) {
            Ok(CosmwasmTask::InitVotingVerifier { code_id, chain_name, .. }) => {
                assert_eq!((code_id, chain_name.as_str()), (7, "solana"));
                seen += 1;
            }
            Ok(CosmwasmTask::InitGateway { code_id, voting_verifier_address, .. }) => {
                assert_eq!((code_id, voting_verifier_address.as_str()), (7, "axelar1v"));
                seen += 10;
            }
            Ok(CosmwasmTask::InitMultisigProver {
                code_id,
                chain_id,
                gateway_address,
                voting_verifier_address,
                chain_name,
                signing_key,
            }) => {
                assert_eq!((code_id, chain_id), (7, 8));
                assert_eq!(gateway_address, "axelar1g");
                assert_eq!(voting_verifier_address, "axelar1v");
                assert_eq!(chain_name, "solana");
                let public = signing_key.public_key().to_bytes();
                assert_eq!(hex::encode(public), GENERATOR);
                seen += 100;
            }
            _ => panic!("an initialization was asked for"),
        }
    }
    assert_eq!(seen, 111);
}

#[test]
fn unreadable_key_stops_every_init() {
    for command in init_commands() {
        let error = init("zz", command).err().unwrap();
        assert_eq!(error.text(), "Invalid character 'z' at position 0");
    }
    for command in init_commands() {
        let error = init("00", command).err().unwrap();
        assert_eq!(error.text(), "invalid secp256k1 private key");
    }
}

#[test]
fn initialization_with_a_given_key() {
    for command in init_commands() {
        let key = parse_private_key(ONE).ok().unwrap();
        match initialization(3, key, command) {
            CosmwasmTask::InitGateway { code_id, signing_key, voting_verifier_address } => {
                assert_eq!((code_id, voting_verifier_address.as_str()), (3, "axelar1v"));
                assert_eq!(hex::encode(signing_key.public_key().to_bytes()), GENERATOR);
            }
            CosmwasmTask::InitVotingVerifier { code_id, chain_name, .. } => {
                assert_eq!((code_id, chain_name.as_str()), (3, "solana"));
            }
            CosmwasmTask::InitMultisigProver { code_id, chain_id, .. } => {
                assert_eq!((code_id, chain_id), (3, 8));
            }
            _ => panic!("an initialization was asked for"),
        }
    }
}

#[test]
fn solana_commands() {
    let task = |command: Solana| {
        let cli: Cli<String> = Cli::Solana { command };
        match cli.run() {
            Ok(Task::Solana(task)) => task,
            _ => panic!("the task is for Solana"),
        }
    };
    let contract = || SolanaContract { folder: "gateway".to_string() };
    match task(Solana::Build { contract: contract() }) {
        SolanaTask::BuildContract { contract: built } => assert_eq!(built, contract()),
        _ => panic!("a build was asked for"),
    }
    let url = Url::parse("http://node.example/").unwrap();
    let ws = Url::parse("ws://node.example/").unwrap();
    let deploy = Solana::Deploy {
        contract: contract(),
        keypair_path: Some(PathBuf::from("keypair.json")),
        url: Some(url.clone()),
        ws_url: Some(ws.clone()),
        program_id: PathBuf::from("program.json"),
    };
    match task(deploy) {
        SolanaTask::Deploy { contract: deployed, program_id, keypair_path, url: u, ws_url } => {
            assert_eq!(deployed, contract());
            assert_eq!(program_id, PathBuf::from("program.json"));
            assert_eq!(keypair_path, Some(PathBuf::from("keypair.json")));
            assert_eq!((u, ws_url), (Some(url), Some(ws)));
        }
        _ => panic!("a deployment was asked for"),
    }
    let init = Solana::Init {
        contract: SolanaInitSubcommand::GmpGateway {
            auth_weighted_file: PathBuf::from("auth_weighted.toml"),
            rpc_url: None,
            payer_kp_path: None,
        },
    };
    match task(init) {
        SolanaTask::InitGmpGateway { auth_weighted_file, rpc_url, payer_kp_path } => {
            assert_eq!(auth_weighted_file, PathBuf::from("auth_weighted.toml"));
            assert_eq!((rpc_url, payer_kp_path), (None, None));
        }
        _ => panic!("an initialization was asked for"),
    }
}

#[test]
fn evm_commands() {
    let node_rpc = Url::parse("http://evm.example/").unwrap();
    let cli = Cli::Evm {
        node_rpc: node_rpc.clone(),
        admin_private_key: "wallet".to_string(),
        command: Evm::SendMemoToSolana {
            evm_memo_contract_address: EvmAddress { bytes: [5; 20] },
            memo_to_send: "hello".to_string(),
            solana_chain_id: "solana".to_string(),
        },
    };
    match cli.run() {
        Ok(Task::Evm(EvmTask::SendMemoToSolana {
            signer,
            evm_memo_contract_address,
            memo_to_send,
            solana_chain_id,
        })) => {
            assert_eq!(signer.node_rpc, node_rpc);
            assert_eq!(signer.polling_interval_millis, 200);
            assert_eq!(signer.wallet, "wallet");
            assert_eq!(evm_memo_contract_address, EvmAddress { bytes: [5; 20] });
            assert_eq!((memo_to_send.as_str(), solana_chain_id.as_str()), ("hello", "solana"));
        }
        _ => panic!("a memo is to be sent"),
    }
    let cli = Cli::Evm {
        node_rpc: node_rpc.clone(),
        admin_private_key: 7u8,
        command: Evm::DeployAxelarMemo {
            gateway_contract_address: EvmAddress { bytes: [6; 20] },
        },
    };
    match cli.run() {
        Ok(Task::Evm(EvmTask::DeployAxelarMemo { signer, gateway_contract_address })) => {
            assert_eq!((signer.node_rpc, signer.wallet), (node_rpc, 7));
            assert_eq!(gateway_contract_address, EvmAddress { bytes: [6; 20] });
        }
        _ => panic!("a deployment was asked for"),
    }
}
