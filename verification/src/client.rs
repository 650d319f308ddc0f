//! The shape of the remote service as the reducer sees it: the error
//! taxonomy fixed at the client boundary, the result messages that carry a
//! wallet label for correlation, and the remote calls and host effects as
//! plain data, to be performed by the host process.

use vstd::prelude::*;

use crate::config::Config;
use crate::types::{AddressKind, Amount, FeeRate};

verus! {

/// How a failed remote call is classified at the client boundary.  This
/// classification is the only error contract the reducer depends on.
#[derive(Debug, Clone, PartialEq, Eq)]
pub enum RemoteError {
    /// The server is healthy and rejected the request semantically.
    Business { code: i32, message: String },
    /// Transport, serialization or server-health failure.
    System { message: String },
}

/// Classifies a raw remote failure: an error object answered by the server
/// (it carries a code) is a business rejection; anything else — transport,
/// serialization, unreachable endpoint — is a system fault.
pub fn classify_error(call_code: Option<i32>, message: String) -> (r: RemoteError)
    ensures
        match call_code {
            Some(c) => r matches RemoteError::Business { code, message: m } && code == c && m
                == message,
            None => r matches RemoteError::System { message: m } && m == message,
        },
{
    match call_code {
        Some(code) => RemoteError::Business { code, message },
        None => RemoteError::System { message },
    }
}

/// The outcome of a remote call that is not tied to one wallet.
pub type ClientResult<T> = Result<T, RemoteError>;

/// The outcome of a wallet-scoped remote call, tagged with the label of
/// the wallet it was issued for.  Results are applied to the cache slot of
/// this label, never to "whatever is currently selected".
#[derive(Debug, PartialEq, Eq)]
pub struct WalletResult<T> {
    pub label: String,
    pub result: Result<T, RemoteError>,
}

/// One asynchronous command the reducer asks the host to perform.  Each
/// remote call eventually produces a future message; host effects produce
/// none.
#[derive(Debug, Clone, PartialEq, Eq)]
pub enum Command {
    /// Build a connection to the wallet service at this endpoint.
    Connect { url: String },
    GetServerInfo,
    ListWallets,
    CreateWallet { wallet: String },
    LoadWallet { wallet: String },
    ExportWallet { wallet: String },
    ImportWallet { contents: String },
    GetWalletInfo { wallet: String },
    GetWalletBalance { wallet: String },
    GetWalletSpaces { wallet: String },
    GetWalletTransactions { wallet: String, count: usize },
    GetWalletAddress { wallet: String, kind: AddressKind },
    GetSpaceInfo { slabel: String },
    SendCoins { wallet: String, recipient: String, amount: Amount, fee_rate: Option<FeeRate> },
    OpenSpace { wallet: String, slabel: String, amount: Amount, fee_rate: Option<FeeRate> },
    BidSpace { wallet: String, slabel: String, amount: Amount, fee_rate: Option<FeeRate> },
    RegisterSpace { wallet: String, slabel: String, fee_rate: Option<FeeRate> },
    RenewSpace { wallet: String, slabel: String, fee_rate: Option<FeeRate> },
    SendSpace { wallet: String, recipient: String, slabel: String, fee_rate: Option<FeeRate> },
    BumpFee { wallet: String, txid: String, fee_rate: FeeRate },
    BuySpace { wallet: String, listing: String, fee_rate: Option<FeeRate> },
    SellSpace { wallet: String, slabel: String, price: Amount },
    SignEvent { wallet: String, slabel: String, event: String },
    /// Host effect: put text on the clipboard.
    WriteClipboard { text: String },
    /// Host effect: let the user pick a file and hand its contents back.
    PickFile,
    /// Host effect: let the user choose a path and write the text there.
    SaveFile { contents: String },
    /// Host effect: persist the configuration snapshot wholesale.
    SaveConfig { config: Config },
}

} // verus!
