//! The setup page: binding the endpoint and choosing a wallet.  Its
//! update function decides; the host performs the connection attempts and
//! file dialogs and feeds the outcomes back in.

use vstd::prelude::*;
use vstd::string::*;

use crate::client::{ClientResult, Command, RemoteError};
use crate::config::{Config, Network};
use crate::label_map::str_eq;
use crate::pages::main::ServerInfo;
use crate::state::labels_contain;

verus! {

/// The state of the setup phase.
pub struct State {
    pub config: Config,
    /// A connection attempt succeeded and no wallet exists yet, so the
    /// create / import choice is shown.
    pub connected: bool,
    /// A connection attempt is under way or succeeded.
    pub has_client: bool,
    pub error: Option<String>,
    /// The endpoint being typed; `None` selects the bundled default.
    pub rpc_url: Option<String>,
    pub network: Network,
}

pub enum Message {
    UrlToggle(bool),
    UrlInput(String),
    NetworkSelect(Network),
    Connect,
    ConnectResult(ClientResult<ServerInfo>),
    ListWalletsResult(ClientResult<Vec<String>>),
    Disconnect,
    CreateWallet,
    ImportWallet,
    ImportWalletPicked(Result<String, String>),
    SetWalletResult(Result<String, RemoteError>),
}

/// What one setup step asks of the host: commands, or the switch to the
/// main phase with the configuration to persist and keep.
#[derive(Debug, PartialEq, Eq)]
pub enum Action {
    Return(Config),
    Task(Vec<Command>),
}

/// The name under which each network answers a server-info call.
pub open spec fn network_text(n: Network) -> Seq<char> {
    match n {
        Network::Mainnet => "mainnet"@,
        Network::Testnet4 => "testnet4"@,
        Network::Regtest => "regtest"@,
    }
}

/// Writes the network's name.
pub fn network_name(n: Network) -> (r: &'static str)
    ensures
        r@ == network_text(n),
{
    match n {
        Network::Mainnet => "mainnet",
        Network::Testnet4 => "testnet4",
        Network::Regtest => "regtest",
    }
}

/// The endpoint used when none is configured.
pub fn default_rpc_url() -> (r: &'static str)
    ensures
        r@ == "http://127.0.0.1:7225"@,
{
    "http://127.0.0.1:7225"
}

/// The message of either error class, as the setup page shows it.
pub open spec fn error_text(e: RemoteError) -> Seq<char> {
    match e {
        RemoteError::Business { code, message } => message@,
        RemoteError::System { message } => message@,
    }
}

/// The two endpoint choices carry the same text.
pub open spec fn opt_text_eq(a: Option<String>, b: Option<String>) -> bool {
    match (a, b) {
        (Some(x), Some(y)) => x@ == y@,
        (None, None) => true,
        _ => false,
    }
}

/// The configuration after a successful handshake: an endpoint or
/// network change invalidates the remembered wallet.
pub open spec fn config_after_connect(pre: State) -> Config {
    if opt_text_eq(pre.config.spaced_rpc_url, pre.rpc_url) && pre.config.network == pre.network {
        pre.config
    } else {
        Config { spaced_rpc_url: pre.rpc_url, network: pre.network, wallet: None }
    }
}

/// Exactly how one message changes the setup state and what follows.
pub open spec fn update_rel(pre: State, message: Message, post: State, a: Action) -> bool {
    match message {
        Message::UrlToggle(on) => {
            &&& post == (State {
                rpc_url: post.rpc_url,
                error: None::<String>,
                ..pre
            })
            &&& if on {
                post.rpc_url matches Some(u) && u@ == "http://127.0.0.1:7225"@
            } else {
                post.rpc_url is None
            }
            &&& a matches Action::Task(v) && v@.len() == 0
        },
        Message::UrlInput(u) => {
            &&& post == (State { rpc_url: Some(u), error: None::<String>, ..pre })
            &&& a matches Action::Task(v) && v@.len() == 0
        },
        Message::NetworkSelect(n) => {
            &&& post == (State { network: n, error: None::<String>, ..pre })
            &&& a matches Action::Task(v) && v@.len() == 0
        },
        Message::Connect => match pre.rpc_url {
            Some(u) => {
                &&& post == (State { has_client: true, error: None::<String>, ..pre })
                &&& a matches Action::Task(v) && v@.len() == 1 && (v@[0] matches Command::Connect {
                    url,
                } && url@ == u@)
            },
            None => {
                &&& post == (State { error: None::<String>, ..pre })
                &&& a matches Action::Task(v) && v@.len() == 0
            },
        },
        Message::ConnectResult(result) => match result {
            Ok(info) => if info.network@ == network_text(pre.network) {
                let cfg = config_after_connect(pre);
                if cfg.wallet is Some {
                    &&& post == (State { config: cfg, error: None::<String>, ..pre })
                    &&& a == Action::Return(cfg)
                } else {
                    &&& post == (State { config: cfg, error: None::<String>, ..pre })
                    &&& a matches Action::Task(v) && v@.len() == 1 && v@[0] is ListWallets
                }
            } else {
                &&& post == (State {
                    has_client: false,
                    error: post.error,
                    ..pre
                })
                &&& post.error matches Some(m) && m@ == "wrong network"@
                &&& a matches Action::Task(v) && v@.len() == 0
            },
            Err(e) => {
                &&& post == (State { has_client: false, error: post.error, ..pre })
                &&& post.error matches Some(m) && m@ == error_text(e)
                &&& a matches Action::Task(v) && v@.len() == 0
            },
        },
        Message::ListWalletsResult(result) => match result {
            Ok(wallets) => if wallets@.len() == 0 {
                &&& post == (State { connected: true, error: None::<String>, ..pre })
                &&& a matches Action::Task(v) && v@.len() == 0
            } else {
                &&& (pre.config.wallet is None && labels_contain(wallets@, "default"@) ==> (
                post.config.wallet matches Some(w) && w@ == "default"@))
                &&& (!(pre.config.wallet is None && labels_contain(wallets@, "default"@))
                    ==> post.config == pre.config)
                &&& post == (State { config: post.config, error: None::<String>, ..pre })
                &&& a == Action::Return(post.config)
            },
            Err(e) => {
                &&& post == (State { has_client: false, error: post.error, ..pre })
                &&& post.error matches Some(m) && m@ == error_text(e)
                &&& a matches Action::Task(v) && v@.len() == 0
            },
        },
        Message::Disconnect => {
            &&& post == (State {
                has_client: false,
                connected: false,
                error: None::<String>,
                ..pre
            })
            &&& a matches Action::Task(v) && v@.len() == 0
        },
        Message::CreateWallet => {
            &&& post == (State { error: None::<String>, ..pre })
            &&& a matches Action::Task(v) && v@.len() == 1 && (v@[0] matches Command::CreateWallet {
                wallet,
            } && wallet@ == "default"@)
        },
        Message::ImportWallet => {
            &&& post == (State { error: None::<String>, ..pre })
            &&& a matches Action::Task(v) && v@.len() == 1 && v@[0] is PickFile
        },
        Message::ImportWalletPicked(result) => match result {
            Ok(contents) => {
                &&& post == (State { error: None::<String>, ..pre })
                &&& a matches Action::Task(v) && v@.len() == 1 && (v@[0]
                    matches Command::ImportWallet { contents: c } && c@ == contents@)
            },
            Err(m) => {
                &&& post == (State { error: Some(m), ..pre })
                &&& a matches Action::Task(v) && v@.len() == 0
            },
        },
        Message::SetWalletResult(result) => match result {
            Ok(wallet) => {
                &&& post.config == (Config { wallet: Some(wallet), ..pre.config })
                &&& post == (State { config: post.config, error: None::<String>, ..pre })
                &&& a == Action::Return(post.config)
            },
            Err(e) => {
                &&& post == (State { error: post.error, ..pre })
                &&& post.error matches Some(m) && m@ == error_text(e)
                &&& a matches Action::Task(v) && v@.len() == 0
            },
        },
    }
}

/// The setup page as it starts from a configuration snapshot.
pub open spec fn spec_init(s: State, config: Config) -> bool {
    &&& s.config == config
    &&& !s.connected
    &&& !s.has_client
    &&& s.error is None
    &&& s.rpc_url == config.spaced_rpc_url
    &&& s.network == config.network
}

impl State {
    /// Starts the setup phase from a configuration snapshot; when the
    /// snapshot was read from disk, a connection attempt is issued at
    /// once.
    pub fn run(config: Config, autoload: bool) -> (r: (State, Option<Message>))
        ensures
            spec_init(r.0, config),
            r.1 == (if autoload {
                Some(Message::Connect)
            } else {
                None::<Message>
            }),
    {
        let rpc_url = match &config.spaced_rpc_url {
            Some(u) => Some(u.clone()),
            None => None,
        };
        let network = config.network;
        let state = State {
            config,
            connected: false,
            has_client: false,
            error: None,
            rpc_url,
            network,
        };
        if autoload {
            (state, Some(Message::Connect))
        } else {
            (state, None)
        }
    }

    /// The setup reducer.
    pub fn update(&mut self, message: Message) -> (a: Action)
        ensures
            update_rel(*old(self), message, *final(self), a),
    {
        self.error = None;
        match message {
            Message::UrlToggle(on) => {
                self.rpc_url = if on {
                    Some(default_rpc_url().to_owned())
                } else {
                    None
                };
                Action::Task(Vec::new())
            }
            Message::UrlInput(u) => {
                self.rpc_url = Some(u);
                Action::Task(Vec::new())
            }
            Message::NetworkSelect(n) => {
                self.network = n;
                Action::Task(Vec::new())
            }
            Message::Connect => {
                let url = match &self.rpc_url {
                    Some(u) => Some(u.clone()),
                    None => None,
                };
                match url {
                    Some(u) => {
                        self.has_client = true;
                        Action::Task(vec![Command::Connect { url: u }])
                    }
                    None => Action::Task(Vec::new()),
                }
            }
            Message::ConnectResult(result) => {
                match result {
                    Ok(info) => {
                        if str_eq(info.network.as_str(), network_name(self.network)) {
                            let same = self.url_unchanged() && self.config.network == self.network;
                            if !same {
                                self.config.spaced_rpc_url = match &self.rpc_url {
                                    Some(u) => Some(u.clone()),
                                    None => None,
                                };
                                self.config.network = self.network;
                                self.config.wallet = None;
                            }
                            if self.config.wallet.is_some() {
                                Action::Return(self.config.snapshot())
                            } else {
                                Action::Task(vec![Command::ListWallets])
                            }
                        } else {
                            self.has_client = false;
                            self.error = Some("wrong network".to_owned());
                            Action::Task(Vec::new())
                        }
                    }
                    Err(e) => {
                        self.has_client = false;
                        self.note_error(e);
                        Action::Task(Vec::new())
                    }
                }
            }
            Message::ListWalletsResult(result) => {
                match result {
                    Ok(wallets) => {
                        if wallets.is_empty() {
                            self.connected = true;
                            Action::Task(Vec::new())
                        } else {
                            if self.config.wallet.is_none() && crate::state::contains_label(
                                &wallets,
                                "default",
                            ) {
                                self.config.wallet = Some("default".to_owned());
                            }
                            Action::Return(self.config.snapshot())
                        }
                    }
                    Err(e) => {
                        self.has_client = false;
                        self.note_error(e);
                        Action::Task(Vec::new())
                    }
                }
            }
            Message::Disconnect => {
                self.has_client = false;
                self.connected = false;
                Action::Task(Vec::new())
            }
            Message::CreateWallet => Action::Task(
                vec![Command::CreateWallet { wallet: "default".to_owned() }],
            ),
            Message::ImportWallet => Action::Task(vec![Command::PickFile]),
            Message::ImportWalletPicked(result) => {
                match result {
                    Ok(contents) => Action::Task(vec![Command::ImportWallet { contents }]),
                    Err(m) => {
                        self.error = Some(m);
                        Action::Task(Vec::new())
                    }
                }
            }
            Message::SetWalletResult(result) => {
                match result {
                    Ok(wallet) => {
                        self.config.wallet = Some(wallet);
                        Action::Return(self.config.snapshot())
                    }
                    Err(e) => {
                        self.note_error(e);
                        Action::Task(Vec::new())
                    }
                }
            }
        }
    }

    /// Whether the typed endpoint carries the configured one's text.
    fn url_unchanged(&self) -> (r: bool)
        ensures
            r == opt_text_eq(self.config.spaced_rpc_url, self.rpc_url),
    {
        match (&self.config.spaced_rpc_url, &self.rpc_url) {
            (Some(a), Some(b)) => str_eq(a.as_str(), b.as_str()),
            (None, None) => true,
            _ => false,
        }
    }

    fn note_error(&mut self, e: RemoteError)
        ensures
            final(self).error matches Some(m) && m@ == error_text(e),
            final(self).config == old(self).config,
            final(self).connected == old(self).connected,
            final(self).has_client == old(self).has_client,
            final(self).rpc_url == old(self).rpc_url,
            final(self).network == old(self).network,
    {
        match e {
            RemoteError::Business { code: _, message } => {
                self.error = Some(message);
            }
            RemoteError::System { message } => {
                self.error = Some(message);
            }
        }
    }
}

} // verus!
