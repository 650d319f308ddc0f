//! The persisted configuration snapshot: endpoint, network and selected
//! wallet.  The host process reads it once at start and rewrites it
//! wholesale when told to; the reducer treats it as plain data.

use vstd::prelude::*;

verus! {

/// The chain a wallet service runs on.
#[derive(Debug, Clone, Copy, PartialEq, Eq, Structural)]
pub enum Network {
    Mainnet,
    Testnet4,
    Regtest,
}

/// The configuration snapshot.
#[derive(Debug, Clone, PartialEq, Eq)]
pub struct Config {
    /// The RPC endpoint of the wallet service; `None` means the bundled
    /// default for the chosen network.
    pub spaced_rpc_url: Option<String>,
    pub network: Network,
    /// The label of the wallet selected at the last run.
    pub wallet: Option<String>,
}

impl Config {
    /// A fresh configuration before any setup has completed.
    pub fn new() -> (r: Config)
        ensures
            r.spaced_rpc_url is None,
            r.network is Mainnet,
            r.wallet is None,
    {
        Config { spaced_rpc_url: None, network: Network::Mainnet, wallet: None }
    }

    /// An exact copy of the snapshot, field by field.
    pub fn snapshot(&self) -> (c: Config)
        ensures
            c == *self,
    {
        Config {
            spaced_rpc_url: match &self.spaced_rpc_url {
                Some(u) => Some(u.clone()),
                None => None,
            },
            network: self.network,
            wallet: match &self.wallet {
                Some(w) => Some(w.clone()),
                None => None,
            },
        }
    }
}

} // verus!
