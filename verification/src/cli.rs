//! The workspace's command line: what each command asks for.
use vstd::prelude::*;

use crate::keys;
use crate::keys::{KeyError, KeyErrorView};

verus! {

/// Milliseconds between two requests of the client of an EVM node for news.
pub const EVM_POLLING_INTERVAL_MILLIS: u64 = 200;

/// The workspace's commands, which help humans and CI alike to build, deploy and initialize
/// programs. `W` is the type of the wallets of EVM chains.
#[allow(inconsistent_fields)]
pub enum Cli<W> {
    /// Build, deploy, instantiate and interact with our Solana programs.
    Solana { command: Solana },
    /// Deploy, instantiate and operate with EVM chains and our demo contracts.
    Evm { node_rpc: url::Url, admin_private_key: W, command: Evm },
    /// Work with CosmWasm contracts and the Axelar chain.
    Cosmwasm { command: Cosmwasm },
}

/// The commands for the Axelar chain.
pub enum Cosmwasm {
    /// Build all CosmWasm contracts so that they are ready for deployment.
    Build,
    /// Deploy the contracts.
    Deploy { private_key_hex: String },
    /// Initialize a deployed contract.
    Init { code_id: u64, private_key_hex: String, command: CosmwasmInit },
    /// Generate a new Axelar wallet.
    GenerateWallet,
}

/// The contracts that can be initialized, each with its own parameters.
pub enum CosmwasmInit {
    VotingVerifier { chain_name: String },
    Gateway { voting_verifier_address: String },
    MultisigProver {
        chain_id: u64,
        gateway_address: String,
        voting_verifier_address: String,
        chain_name: String,
    },
}

/// An address on an EVM chain.
#[derive(Clone, Copy, Debug, PartialEq, Eq)]
pub struct EvmAddress {
    pub bytes: [u8; 20],
}

/// The commands for EVM chains, on which deployment and initialization are one.
pub enum Evm {
    DeployAxelarMemo { gateway_contract_address: EvmAddress },
    SendMemoToSolana {
        evm_memo_contract_address: EvmAddress,
        memo_to_send: String,
        solana_chain_id: String,
    },
}

/// A Solana contract, by the name of its folder.
#[derive(Debug, PartialEq, Eq)]
pub struct SolanaContract {
    pub folder: String,
}

/// The commands for Solana.
#[allow(inconsistent_fields)]
pub enum Solana {
    /// Build a contract that is listed in the programs workspace directory.
    Build { contract: SolanaContract },
    /// Deploy a contract. What is not given falls back to the defaults of the Solana CLI.
    Deploy {
        contract: SolanaContract,
        keypair_path: Option<std::path::PathBuf>,
        url: Option<url::Url>,
        ws_url: Option<url::Url>,
        program_id: std::path::PathBuf,
    },
    /// Initialize a deployed contract.
    Init { contract: SolanaInitSubcommand },
}

/// The contracts that can be initialized, each with its own parameters.
pub enum SolanaInitSubcommand {
    GmpGateway {
        auth_weighted_file: std::path::PathBuf,
        rpc_url: Option<url::Url>,
        payer_kp_path: Option<std::path::PathBuf>,
    },
}

/// What is to be done on Solana.
pub enum SolanaTask {
    BuildContract { contract: SolanaContract },
    Deploy {
        contract: SolanaContract,
        program_id: std::path::PathBuf,
        keypair_path: Option<std::path::PathBuf>,
        url: Option<url::Url>,
        ws_url: Option<url::Url>,
    },
    InitGmpGateway {
        auth_weighted_file: std::path::PathBuf,
        rpc_url: Option<url::Url>,
        payer_kp_path: Option<std::path::PathBuf>,
    },
}

/// What a signer for an EVM chain is made of: a client of the node that asks it for news at the
/// interval, and the wallet.
pub struct EvmSignerSetup<W> {
    pub node_rpc: url::Url,
    pub polling_interval_millis: u64,
    pub wallet: W,
}

/// What is to be done on an EVM chain once the signer is set up.
pub enum EvmTask<W> {
    DeployAxelarMemo { signer: EvmSignerSetup<W>, gateway_contract_address: EvmAddress },
    SendMemoToSolana {
        signer: EvmSignerSetup<W>,
        evm_memo_contract_address: EvmAddress,
        memo_to_send: String,
        solana_chain_id: String,
    },
}

/// What is to be done on the Axelar chain. Keys have been read.
pub enum CosmwasmTask {
    Build,
    Deploy { signing_key: cosmrs::crypto::secp256k1::SigningKey },
    GenerateWallet,
    InitVotingVerifier { code_id: u64, signing_key: cosmrs::crypto::secp256k1::SigningKey, chain_name: String },
    InitGateway { code_id: u64, signing_key: cosmrs::crypto::secp256k1::SigningKey, voting_verifier_address: String },
    InitMultisigProver {
        code_id: u64,
        signing_key: cosmrs::crypto::secp256k1::SigningKey,
        chain_id: u64,
        gateway_address: String,
        voting_verifier_address: String,
        chain_name: String,
    },
}

/// What is to be done.
pub enum Task<W> {
    Solana(SolanaTask),
    Evm(EvmTask<W>),
    Cosmwasm(CosmwasmTask),
}

/// What a command for Solana asks for.
pub open spec fn solana_task(command: Solana) -> SolanaTask {
    match command {
        Solana::Build { contract } => SolanaTask::BuildContract { contract },
        Solana::Deploy { contract, keypair_path, url, ws_url, program_id } => SolanaTask::Deploy {
            contract,
            program_id,
            keypair_path,
            url,
            ws_url,
        },
        Solana::Init {
            contract: SolanaInitSubcommand::GmpGateway {
                auth_weighted_file,
                rpc_url,
                payer_kp_path,
            },
        } => SolanaTask::InitGmpGateway { auth_weighted_file, rpc_url, payer_kp_path },
    }
}

/// Decides what a command for Solana asks for.
pub fn handle_solana(command: Solana) -> (task: SolanaTask)
    ensures
        task == solana_task(command),
        match command {
            Solana::Build { contract } => {
                &&& task matches SolanaTask::BuildContract { contract: built }
                &&& built == contract
            },
            Solana::Deploy { contract, keypair_path, url, ws_url, program_id } => {
                &&& task matches SolanaTask::Deploy {
                    contract: deployed,
                    program_id: id,
                    keypair_path: keypair,
                    url: rpc,
                    ws_url: ws,
                }
                &&& deployed == contract
                &&& id == program_id
                &&& keypair == keypair_path
                &&& rpc == url
                &&& ws == ws_url
            },
            Solana::Init { contract: SolanaInitSubcommand::GmpGateway {
                auth_weighted_file,
                rpc_url,
                payer_kp_path,
            } } => {
                &&& task matches SolanaTask::InitGmpGateway {
                    auth_weighted_file: file,
                    rpc_url: rpc,
                    payer_kp_path: payer,
                }
                &&& file == auth_weighted_file
                &&& rpc == rpc_url
                &&& payer == payer_kp_path
            },
        },
{
    match command {
        Solana::Build { contract } => SolanaTask::BuildContract { contract },
        Solana::Deploy { contract, keypair_path, url, ws_url, program_id } => SolanaTask::Deploy {
            contract,
            program_id,
            keypair_path,
            url,
            ws_url,
        },
        Solana::Init { contract } => match contract {
            SolanaInitSubcommand::GmpGateway { auth_weighted_file, rpc_url, payer_kp_path } => {
                SolanaTask::InitGmpGateway { auth_weighted_file, rpc_url, payer_kp_path }
            },
        },
    }
}

/// The signer for a node and a wallet.
pub open spec fn evm_signer<W>(node_rpc: url::Url, wallet: W) -> EvmSignerSetup<W> {
    EvmSignerSetup { node_rpc, polling_interval_millis: EVM_POLLING_INTERVAL_MILLIS, wallet }
}

/// Decides how the signer for a node and a wallet is set up.
pub fn init_evm_signer<W>(node_rpc: url::Url, wallet: W) -> (setup: EvmSignerSetup<W>)
    ensures
        setup == evm_signer(node_rpc, wallet),
        setup.node_rpc == node_rpc,
        setup.wallet == wallet,
        setup.polling_interval_millis == 200,
{
    EvmSignerSetup { node_rpc, polling_interval_millis: EVM_POLLING_INTERVAL_MILLIS, wallet }
}

/// What a command for an EVM chain asks for, given the signer.
pub open spec fn evm_task<W>(signer: EvmSignerSetup<W>, command: Evm) -> EvmTask<W> {
    match command {
        Evm::DeployAxelarMemo { gateway_contract_address } => EvmTask::DeployAxelarMemo {
            signer,
            gateway_contract_address,
        },
        Evm::SendMemoToSolana { evm_memo_contract_address, memo_to_send, solana_chain_id } => {
            EvmTask::SendMemoToSolana {
                signer,
                evm_memo_contract_address,
                memo_to_send,
                solana_chain_id,
            }
        },
    }
}

/// Decides what a command for an EVM chain asks for.
pub fn handle_evm<W>(node_rpc: url::Url, admin_private_key: W, command: Evm) -> (task: EvmTask<W>)
    ensures
        task == evm_task(evm_signer(node_rpc, admin_private_key), command),
        match command {
            Evm::DeployAxelarMemo { gateway_contract_address } => {
                &&& task matches EvmTask::DeployAxelarMemo {
                    signer: with,
                    gateway_contract_address: gateway,
                }
                &&& with.node_rpc == node_rpc && with.wallet == admin_private_key
                    && with.polling_interval_millis == 200
                &&& gateway.bytes@ == gateway_contract_address.bytes@
            },
            Evm::SendMemoToSolana {
                evm_memo_contract_address,
                memo_to_send,
                solana_chain_id,
            } => {
                &&& task matches EvmTask::SendMemoToSolana {
                    signer: with,
                    evm_memo_contract_address: contract,
                    memo_to_send: memo,
                    solana_chain_id: chain,
                }
                &&& with.node_rpc == node_rpc && with.wallet == admin_private_key
                    && with.polling_interval_millis == 200
                &&& contract.bytes@ == evm_memo_contract_address.bytes@
                &&& memo@ == memo_to_send@
                &&& chain@ == solana_chain_id@
            },
        },
{
    let signer = init_evm_signer(node_rpc, admin_private_key);
    match command {
        Evm::DeployAxelarMemo { gateway_contract_address } => EvmTask::DeployAxelarMemo {
            signer,
            gateway_contract_address,
        },
        Evm::SendMemoToSolana { evm_memo_contract_address, memo_to_send, solana_chain_id } => {
            EvmTask::SendMemoToSolana {
                signer,
                evm_memo_contract_address,
                memo_to_send,
                solana_chain_id,
            }
        },
    }
}

/// What an initialization with this key asks for.
pub open spec fn init_task(
    code_id: u64,
    signing_key: cosmrs::crypto::secp256k1::SigningKey,
    command: CosmwasmInit,
) -> CosmwasmTask {
    match command {
        CosmwasmInit::VotingVerifier { chain_name } => CosmwasmTask::InitVotingVerifier {
            code_id,
            signing_key,
            chain_name,
        },
        CosmwasmInit::Gateway { voting_verifier_address } => CosmwasmTask::InitGateway {
            code_id,
            signing_key,
            voting_verifier_address,
        },
        CosmwasmInit::MultisigProver {
            chain_id,
            gateway_address,
            voting_verifier_address,
            chain_name,
        } => CosmwasmTask::InitMultisigProver {
            code_id,
            signing_key,
            chain_id,
            gateway_address,
            voting_verifier_address,
            chain_name,
        },
    }
}

/// What a command for the Axelar chain asks for, where these bytes encode the key that it names.
pub open spec fn cosmwasm_task(command: Cosmwasm, key: Seq<u8>) -> CosmwasmTask {
    match command {
        Cosmwasm::Build => CosmwasmTask::Build,
        Cosmwasm::GenerateWallet => CosmwasmTask::GenerateWallet,
        Cosmwasm::Deploy { .. } => CosmwasmTask::Deploy { signing_key: keys::signing_key_of(key) },
        Cosmwasm::Init { code_id, command, .. } => init_task(
            code_id,
            keys::signing_key_of(key),
            command,
        ),
    }
}

/// The hexadecimal text of the key that a command names, if it needs one.
pub open spec fn key_text(command: Cosmwasm) -> Option<Seq<char>> {
    match command {
        Cosmwasm::Build => None,
        Cosmwasm::GenerateWallet => None,
        Cosmwasm::Deploy { private_key_hex } => Some(private_key_hex@),
        Cosmwasm::Init { private_key_hex, .. } => Some(private_key_hex@),
    }
}

/// Whether the handling of a command for the Axelar chain ends like this: it fails exactly if the
/// command needs a key and names none, and with what is wrong about that text.
pub open spec fn is_cosmwasm_result(
    command: Cosmwasm,
    res: Result<CosmwasmTask, KeyError>,
) -> bool {
    match key_text(command) {
        None => res == Ok::<CosmwasmTask, KeyError>(cosmwasm_task(command, Seq::empty())),
        Some(text) => match keys::private_key(text) {
            Ok(key) => res == Ok::<CosmwasmTask, KeyError>(cosmwasm_task(command, key)),
            Err(why) => res matches Err(error) && error@ == why,
        },
    }
}

/// Decides what an initialization with this key asks for.
pub fn initialization(
    code_id: u64,
    signing_key: cosmrs::crypto::secp256k1::SigningKey,
    command: CosmwasmInit,
) -> (task: CosmwasmTask)
    ensures
        task == init_task(code_id, signing_key, command),
        match command {
            CosmwasmInit::VotingVerifier { chain_name } => {
                &&& task matches CosmwasmTask::InitVotingVerifier {
                    code_id: code,
                    signing_key: with,
                    chain_name: chain,
                }
                &&& code == code_id
                &&& with == signing_key
                &&& chain@ == chain_name@
            },
            CosmwasmInit::Gateway { voting_verifier_address } => {
                &&& task matches CosmwasmTask::InitGateway {
                    code_id: code,
                    signing_key: with,
                    voting_verifier_address: verifier,
                }
                &&& code == code_id
                &&& with == signing_key
                &&& verifier@ == voting_verifier_address@
            },
            CosmwasmInit::MultisigProver {
                chain_id,
                gateway_address,
                voting_verifier_address,
                chain_name,
            } => {
                &&& task matches CosmwasmTask::InitMultisigProver {
                    code_id: code,
                    signing_key: with,
                    chain_id: id,
                    gateway_address: gateway,
                    voting_verifier_address: verifier,
                    chain_name: chain,
                }
                &&& code == code_id
                &&& with == signing_key
                &&& id == chain_id
                &&& gateway@ == gateway_address@
                &&& verifier@ == voting_verifier_address@
                &&& chain@ == chain_name@
            },
        },
{
    match command {
        CosmwasmInit::VotingVerifier { chain_name } => CosmwasmTask::InitVotingVerifier {
            code_id,
            signing_key,
            chain_name,
        },
        CosmwasmInit::Gateway { voting_verifier_address } => CosmwasmTask::InitGateway {
            code_id,
            signing_key,
            voting_verifier_address,
        },
        CosmwasmInit::MultisigProver {
            chain_id,
            gateway_address,
            voting_verifier_address,
            chain_name,
        } => CosmwasmTask::InitMultisigProver {
            code_id,
            signing_key,
            chain_id,
            gateway_address,
            voting_verifier_address,
            chain_name,
        },
    }
}

/// Decides what a command for the Axelar chain asks for, and reads the key that it names.
pub fn handle_cosmwasm(command: Cosmwasm) -> (res: Result<CosmwasmTask, KeyError>)
    ensures
        is_cosmwasm_result(command, res),
        match command {
            Cosmwasm::Build => res == Ok::<CosmwasmTask, KeyError>(CosmwasmTask::Build),
            Cosmwasm::GenerateWallet => res == Ok::<CosmwasmTask, KeyError>(
                CosmwasmTask::GenerateWallet,
            ),
            Cosmwasm::Deploy { private_key_hex } => match keys::private_key(private_key_hex@) {
                Ok(key) => {
                    &&& res matches Ok(CosmwasmTask::Deploy { signing_key })
                    &&& signing_key == keys::signing_key_of(key)
                },
                Err(why) => res matches Err(error) && error@ == why,
            },
            Cosmwasm::Init { code_id, private_key_hex, command } => match keys::private_key(
                private_key_hex@,
            ) {
                Ok(key) => res matches Ok(task) && task == init_task(
                    code_id,
                    keys::signing_key_of(key),
                    command,
                ),
                Err(why) => res matches Err(error) && error@ == why,
            },
        },
{
    match command {
        Cosmwasm::Build => Ok(CosmwasmTask::Build),
        Cosmwasm::Deploy { private_key_hex } => {
            let signing_key = match keys::parse_private_key(private_key_hex.as_str()) {
                Ok(key) => key,
                Err(error) => {
                    return Err(error);
                },
            };
            Ok(CosmwasmTask::Deploy { signing_key })
        },
        Cosmwasm::GenerateWallet => Ok(CosmwasmTask::GenerateWallet),
        Cosmwasm::Init { code_id, private_key_hex, command } => {
            let signing_key = match keys::parse_private_key(private_key_hex.as_str()) {
                Ok(key) => key,
                Err(error) => {
                    return Err(error);
                },
            };
            Ok(initialization(code_id, signing_key, command))
        },
    }
}

impl<W> Cli<W> {
    /// Decides what the command asks for.
    pub fn run(self) -> (res: Result<Task<W>, KeyError>)
        ensures
            match self {
                Cli::Solana { command } => res == Ok::<Task<W>, KeyError>(
                    Task::Solana(solana_task(command)),
                ),
                Cli::Evm { node_rpc, admin_private_key, command } => res == Ok::<
                    Task<W>,
                    KeyError,
                >(
                    Task::Evm(evm_task(evm_signer(node_rpc, admin_private_key), command)),
                ),
                Cli::Cosmwasm { command } => match res {
                    Ok(Task::Cosmwasm(task)) => is_cosmwasm_result(command, Ok(task)),
                    Ok(_) => false,
                    Err(error) => is_cosmwasm_result(command, Err(error)),
                },
            },
    {
        match self {
            Cli::Solana { command } => Ok(Task::Solana(handle_solana(command))),
            Cli::Evm { node_rpc, admin_private_key, command } => Ok(
                Task::Evm(handle_evm(node_rpc, admin_private_key, command)),
            ),
            Cli::Cosmwasm { command } => match handle_cosmwasm(command) {
                Ok(task) => Ok(Task::Cosmwasm(task)),
                Err(error) => Err(error),
            },
        }
    }
}

/// Nothing is done on the Axelar chain for a command whose key cannot be read, whichever contract
/// it is for: the handling fails, and the error depends on the text of the key alone.
pub proof fn unreadable_keys_stop_every_command(
    command: Cosmwasm,
    text: Seq<char>,
    why: KeyErrorView,
    res: Result<CosmwasmTask, KeyError>,
)
    requires
        key_text(command) == Some(text),
        keys::private_key(text) == Err::<Seq<u8>, KeyErrorView>(why),
    ensures
        is_cosmwasm_result(command, res) ==> (res matches Err(error) && error@ == why),
{
}

/// A command that names the hexadecimal text of a private key is carried out with that key.
pub proof fn readable_keys_are_used(
    command: Cosmwasm,
    key: Seq<u8>,
    res: Result<CosmwasmTask, KeyError>,
)
    requires
        keys::is_private_key(key),
        key_text(command) == Some(crate::encoding::hex_text(key)),
    ensures
        is_cosmwasm_result(command, res) ==> res == Ok::<CosmwasmTask, KeyError>(
            cosmwasm_task(command, key),
        ),
{
    keys::private_keys_can_be_read_back(key);
}

/// What is done on Solana has the parameters of the command: the contract and each path and URL are
/// the ones that were given, and those that were not given stay so.
pub proof fn solana_tasks_keep_the_parameters(command: Solana)
    ensures
        match command {
            Solana::Build { contract } => {
                &&& solana_task(command) matches SolanaTask::BuildContract { contract: built }
                &&& built == contract
            },
            Solana::Deploy { contract, keypair_path, url, ws_url, program_id } => {
                &&& solana_task(command) matches SolanaTask::Deploy {
                    contract: deployed,
                    program_id: id,
                    keypair_path: keypair,
                    url: rpc,
                    ws_url: ws,
                }
                &&& deployed == contract
                &&& id == program_id
                &&& keypair == keypair_path
                &&& rpc == url
                &&& ws == ws_url
            },
            Solana::Init { contract: SolanaInitSubcommand::GmpGateway {
                auth_weighted_file,
                rpc_url,
                payer_kp_path,
            } } => {
                &&& solana_task(command) matches SolanaTask::InitGmpGateway {
                    auth_weighted_file: file,
                    rpc_url: rpc,
                    payer_kp_path: payer,
                }
                &&& file == auth_weighted_file
                &&& rpc == rpc_url
                &&& payer == payer_kp_path
            },
        },
{
}

/// Commands for Solana that differ in any parameter ask for different things.
pub proof fn solana_tasks_determine_the_commands(command1: Solana, command2: Solana)
    requires
        solana_task(command1) == solana_task(command2),
    ensures
        command1 == command2,
{
}

/// A signer is set up for the node and with the wallet that were given, and asks the node for news
/// five times a second.
pub proof fn evm_signers_keep_the_parameters<W>(node_rpc: url::Url, wallet: W)
    ensures
        evm_signer(node_rpc, wallet).node_rpc == node_rpc,
        evm_signer(node_rpc, wallet).wallet == wallet,
        evm_signer(node_rpc, wallet).polling_interval_millis == 200,
{
}

/// What is done on an EVM chain has the parameters of the command: the addresses are the given ones
/// byte for byte, the memo and the chain are the given texts, and the signer is the given one.
pub proof fn evm_tasks_keep_the_parameters<W>(signer: EvmSignerSetup<W>, command: Evm)
    ensures
        match command {
            Evm::DeployAxelarMemo { gateway_contract_address } => {
                &&& evm_task(signer, command) matches EvmTask::DeployAxelarMemo {
                    signer: with,
                    gateway_contract_address: gateway,
                }
                &&& with == signer
                &&& gateway.bytes@ == gateway_contract_address.bytes@
            },
            Evm::SendMemoToSolana {
                evm_memo_contract_address,
                memo_to_send,
                solana_chain_id,
            } => {
                &&& evm_task(signer, command) matches EvmTask::SendMemoToSolana {
                    signer: with,
                    evm_memo_contract_address: contract,
                    memo_to_send: memo,
                    solana_chain_id: chain,
                }
                &&& with == signer
                &&& contract.bytes@ == evm_memo_contract_address.bytes@
                &&& memo@ == memo_to_send@
                &&& chain@ == solana_chain_id@
            },
        },
{
}

/// Commands for an EVM chain that differ in any parameter, or in the signer, ask for different
/// things.
pub proof fn evm_tasks_determine_the_commands<W>(
    signer1: EvmSignerSetup<W>,
    command1: Evm,
    signer2: EvmSignerSetup<W>,
    command2: Evm,
)
    requires
        evm_task(signer1, command1) == evm_task(signer2, command2),
    ensures
        signer1 == signer2,
        command1 == command2,
{
}

/// An initialization has the code, the key and the parameters that were given, each in its place.
pub proof fn initializations_keep_the_parameters(
    code_id: u64,
    signing_key: cosmrs::crypto::secp256k1::SigningKey,
    command: CosmwasmInit,
)
    ensures
        match command {
            CosmwasmInit::VotingVerifier { chain_name } => {
                &&& init_task(code_id, signing_key, command) matches CosmwasmTask::InitVotingVerifier {
                    code_id: code,
                    signing_key: with,
                    chain_name: chain,
                }
                &&& code == code_id
                &&& with == signing_key
                &&& chain@ == chain_name@
            },
            CosmwasmInit::Gateway { voting_verifier_address } => {
                &&& init_task(code_id, signing_key, command) matches CosmwasmTask::InitGateway {
                    code_id: code,
                    signing_key: with,
                    voting_verifier_address: verifier,
                }
                &&& code == code_id
                &&& with == signing_key
                &&& verifier@ == voting_verifier_address@
            },
            CosmwasmInit::MultisigProver {
                chain_id,
                gateway_address,
                voting_verifier_address,
                chain_name,
            } => {
                &&& init_task(code_id, signing_key, command) matches CosmwasmTask::InitMultisigProver {
                    code_id: code,
                    signing_key: with,
                    chain_id: id,
                    gateway_address: gateway,
                    voting_verifier_address: verifier,
                    chain_name: chain,
                }
                &&& code == code_id
                &&& with == signing_key
                &&& id == chain_id
                &&& gateway@ == gateway_address@
                &&& verifier@ == voting_verifier_address@
                &&& chain@ == chain_name@
            },
        },
{
}

/// Initializations that differ in code, key or any parameter are different things to do.
pub proof fn initializations_determine_the_commands(
    code_id1: u64,
    signing_key1: cosmrs::crypto::secp256k1::SigningKey,
    command1: CosmwasmInit,
    code_id2: u64,
    signing_key2: cosmrs::crypto::secp256k1::SigningKey,
    command2: CosmwasmInit,
)
    requires
        init_task(code_id1, signing_key1, command1) == init_task(code_id2, signing_key2, command2),
    ensures
        code_id1 == code_id2,
        signing_key1 == signing_key2,
        command1 == command2,
{
}

/// What is done on the Axelar chain is what the command names, with the key that it names: a
/// deployment deploys, an initialization initializes with the given code and parameters, and the
/// commands that need no key do not depend on one.
pub proof fn cosmwasm_tasks_follow_the_command(command: Cosmwasm, key: Seq<u8>, other: Seq<u8>)
    ensures
        command is Build <==> cosmwasm_task(command, key) is Build,
        command is GenerateWallet <==> cosmwasm_task(command, key) is GenerateWallet,
        command is Deploy <==> cosmwasm_task(command, key) is Deploy,
        cosmwasm_task(command, key) matches CosmwasmTask::Deploy { signing_key } ==> signing_key
            == keys::signing_key_of(key),
        command matches Cosmwasm::Init { code_id, command: inner, .. } ==> cosmwasm_task(
            command,
            key,
        ) == init_task(code_id, keys::signing_key_of(key), inner),
        command is Build || command is GenerateWallet ==> cosmwasm_task(command, key)
            == cosmwasm_task(command, other),
{
}

/// The text that a key is read from is the one that the command names, unchanged.
pub proof fn keys_are_read_as_given(command: Cosmwasm)
    ensures
        command matches Cosmwasm::Deploy { private_key_hex } ==> key_text(command) == Some(
            private_key_hex@,
        ),
        command matches Cosmwasm::Init { private_key_hex, .. } ==> key_text(command) == Some(
            private_key_hex@,
        ),
        command is Build || command is GenerateWallet ==> key_text(command) is None,
{
}

/// A command for the Axelar chain that needs no key is always carried out, and one that names a text
/// is carried out exactly if the text denotes a key, and with that key.
pub proof fn commands_are_carried_out_if_their_key_is_read(
    command: Cosmwasm,
    res: Result<CosmwasmTask, KeyError>,
)
    ensures
        is_cosmwasm_result(command, res) ==> match key_text(command) {
            None => res == Ok::<CosmwasmTask, KeyError>(cosmwasm_task(command, Seq::empty())),
            Some(text) => {
                &&& res is Ok <==> keys::private_key(text) is Ok
                &&& keys::private_key(text) matches Ok(key) ==> res == Ok::<CosmwasmTask, KeyError>(
                    cosmwasm_task(command, key),
                )
                &&& res matches Err(error) ==> keys::private_key(text) == Err::<
                    Seq<u8>,
                    KeyErrorView,
                >(error@)
            },
        },
{
}

} // verus!
