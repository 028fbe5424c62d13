//! The relayer's configuration.
use vstd::prelude::*;

verus! {

/// Where the health check server listens.
#[derive(Clone, Copy, Debug, PartialEq, Eq)]
pub enum SocketAddress {
    V4 { octets: [u8; 4], port: u16 },
    V6 { ip: [u8; 16], port: u16, flow_info: u32, scope_id: u32 },
}

/// The database that holds the relayer's state.
pub struct Database {
    pub url: url::Url,
}

/// Settings of the sentinel, which watches the gateway program on Solana.
pub struct SolanaSentinel {
    pub gateway_address: solana_program::pubkey::Pubkey,
    pub rpc: url::Url,
}

/// Settings of the verifier, which hands messages to Axelar.
pub struct AxelarVerifier {
    pub rpc: url::Url,
}

/// Settings of the transport from Axelar to Solana. Those of its two actors are of the types `A`
/// and `I`, and nothing here reads them.
pub struct AxelarToSolana<A, I> {
    pub approver: A,
    pub includer: I,
}

/// Settings of the transport from Solana to Axelar.
pub struct SolanaToAxelar {
    pub sentinel: SolanaSentinel,
    pub verifier: AxelarVerifier,
}

/// Settings of the whole relayer. A transport without settings is not run.
pub struct Config<A, I> {
    pub axelar_to_solana: Option<AxelarToSolana<A, I>>,
    pub solana_to_axelar: Option<SolanaToAxelar>,
    pub database: Database,
    pub healthcheck_bind_addr: SocketAddress,
}

} // verus!
