//! The parts of the configuration that the library reads.
use vstd::prelude::*;

verus! {

/// Where the exchange is reached.
#[derive(Debug)]
pub struct Hyperliquid {
    pub api_url: String,
    pub ws_url: String,
    /// "mainnet" or "testnet".
    pub network: String,
}

impl Hyperliquid {
    /// Whether the configuration names the main network.
    pub fn is_mainnet(&self) -> (r: bool)
        ensures
            r == (self.network@ == "mainnet"@),
    {
        let mainnet = crate::text::str_to_string("mainnet");
        self.network == mainnet
    }
}

/// Our own wallets: the agent that signs orders and the main account it trades for.
#[derive(Debug)]
pub struct Wallet {
    pub agent_address: String,
    pub main_address: String,
}

impl Wallet {
    /// The agent's address as 20 bytes, where `agent_address` is its hex text.
    pub fn agent_address_bytes(&self) -> (r: Option<[u8; 20]>)
        ensures
            match r {
                Some(a) => crate::crypto::address_of_hex(self.agent_address@) == Some(a@),
                None => crate::crypto::address_of_hex(self.agent_address@) is None,
            },
    {
        crate::crypto::parse_address(self.agent_address.as_str())
    }
}

/// Risk caps that the decision engine enforces.
#[derive(Debug)]
pub struct Risk {
    pub max_concurrent_positions: usize,
}

/// A wallet whose fills we mirror.
#[derive(Debug)]
pub struct Target {
    pub address: String,
    pub label: String,
    pub enabled: bool,
}

} // verus!
