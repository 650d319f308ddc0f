//! The main page's reducer: the single authority that mutates the caches
//! in response to messages and decides which remote calls and host
//! effects follow.  Commands are plain data, so "message in, commands
//! out" is checkable without performing any call.

use vstd::prelude::*;

use crate::client::{ClientResult, Command, RemoteError, WalletResult};
use crate::config::Config;
use crate::screen::{home, market, receive, send, settings, sign, spaces};
use crate::state::{
    labels_of, wallet_data_empty, with_balance, with_sync, with_transactions, AddressData,
    SpaceData, SpacesCollection, TxInfo, WalletData, WalletsCollection,
};
use crate::types::{AddressKind, Amount, FeeRate};

verus! {

/// The screen the user is on: the comparison-stable projection of a
/// route.
#[derive(Debug, Clone, Copy, PartialEq, Eq, Structural)]
pub enum Screen {
    Home,
    Send,
    Receive,
    Spaces,
    Market,
    Sign,
    Settings,
}

/// A navigation target, carrying what the target screen should preload.
pub enum Route {
    Home,
    Send,
    Receive,
    Spaces,
    Space(String),
    Market,
    Sign,
    Settings,
}

/// The screen a route leads to.
pub open spec fn screen_of(route: Route) -> Screen {
    match route {
        Route::Home => Screen::Home,
        Route::Send => Screen::Send,
        Route::Receive => Screen::Receive,
        Route::Spaces => Screen::Spaces,
        Route::Space(_) => Screen::Spaces,
        Route::Market => Screen::Market,
        Route::Sign => Screen::Sign,
        Route::Settings => Screen::Settings,
    }
}

/// What the server reports about itself and its chain.
#[derive(Debug, PartialEq, Eq)]
pub struct ServerInfo {
    pub network: String,
    pub tip_height: u32,
    pub chain_blocks: u32,
    pub chain_headers: u32,
}

/// What a wallet reports about its synchronization.
#[derive(Debug, PartialEq, Eq, Clone, Copy, Structural)]
pub struct WalletInfoResult {
    pub sync_height: u32,
    pub synced: bool,
}

/// One space of a wallet's space listing, with its fetched state.
#[derive(Debug)]
pub struct SpaceEntry {
    pub slabel: String,
    pub space: SpaceData,
}

/// A wallet's spaces, grouped by the wallet's relation to them.
#[derive(Debug)]
pub struct WalletSpacesResult {
    pub winning: Vec<SpaceEntry>,
    pub outbid: Vec<SpaceEntry>,
    pub owned: Vec<SpaceEntry>,
}

/// Everything the reducer reacts to.
pub enum Message {
    Tick,
    NavigateTo(Route),
    ServerInfo(ClientResult<ServerInfo>),
    ListWallets(ClientResult<Vec<String>>),
    WalletLoad(WalletResult<()>),
    WalletInfo(WalletResult<WalletInfoResult>),
    WalletBalance(WalletResult<u64>),
    WalletSpaces(WalletResult<WalletSpacesResult>),
    WalletTransactions(WalletResult<Vec<TxInfo>>),
    WalletAddress(WalletResult<(AddressKind, String)>),
    SpaceInfo(ClientResult<(String, Option<SpaceData>)>),
    HomeScreen(home::Message),
    SendScreen(send::Message),
    ReceiveScreen(receive::Message),
    SpacesScreen(spaces::Message),
    MarketScreen(market::Message),
    SignScreen(sign::Message),
    SettingsScreen(settings::Message),
}

/// What one `update` step asks of the host: either a batch of commands,
/// or the switch back to the setup phase with the configuration to keep.
#[derive(Debug, PartialEq, Eq)]
pub enum Action {
    Return(Config),
    Task(Vec<Command>),
}

/// A ghost description of one command: the same information as
/// [`Command`], over mathematical values, so sequences of issued commands
/// can be stated and compared in specifications.
pub enum CmdSpec {
    GetServerInfo,
    ListWallets,
    CreateWallet(Seq<char>),
    LoadWallet(Seq<char>),
    ExportWallet(Seq<char>),
    ImportWallet(Seq<char>),
    GetWalletInfo(Seq<char>),
    GetWalletBalance(Seq<char>),
    GetWalletSpaces(Seq<char>),
    GetWalletTransactions(Seq<char>, int),
    GetWalletAddress(Seq<char>, AddressKind),
    GetSpaceInfo(Seq<char>),
    SendCoins { wallet: Seq<char>, recipient: Seq<char>, amount: int, fee_rate: Option<int> },
    OpenSpace { wallet: Seq<char>, slabel: Seq<char>, amount: int, fee_rate: Option<int> },
    BidSpace { wallet: Seq<char>, slabel: Seq<char>, amount: int, fee_rate: Option<int> },
    RegisterSpace { wallet: Seq<char>, slabel: Seq<char>, fee_rate: Option<int> },
    RenewSpace { wallet: Seq<char>, slabel: Seq<char>, fee_rate: Option<int> },
    SendSpace { wallet: Seq<char>, recipient: Seq<char>, slabel: Seq<char>, fee_rate: Option<int> },
    BumpFee { wallet: Seq<char>, txid: Seq<char>, fee_rate: int },
    BuySpace { wallet: Seq<char>, listing: Seq<char>, fee_rate: Option<int> },
    SellSpace { wallet: Seq<char>, slabel: Seq<char>, price: int },
    SignEvent { wallet: Seq<char>, slabel: Seq<char>, event: Seq<char> },
    WriteClipboard(Seq<char>),
    PickFile,
    SaveFile(Seq<char>),
    SaveConfig(Config),
    Connect(Seq<char>),
}

/// The fee-rate choice as a ghost value.
pub open spec fn fee_opt(o: Option<FeeRate>) -> Option<int> {
    match o {
        Some(f) => Some(f.spec_sat_per_vb() as int),
        None => None,
    }
}

/// The ghost description of a command.
pub open spec fn cmd_spec(c: Command) -> CmdSpec {
    match c {
        Command::GetServerInfo => CmdSpec::GetServerInfo,
        Command::ListWallets => CmdSpec::ListWallets,
        Command::CreateWallet { wallet } => CmdSpec::CreateWallet(wallet@),
        Command::LoadWallet { wallet } => CmdSpec::LoadWallet(wallet@),
        Command::ExportWallet { wallet } => CmdSpec::ExportWallet(wallet@),
        Command::ImportWallet { contents } => CmdSpec::ImportWallet(contents@),
        Command::GetWalletInfo { wallet } => CmdSpec::GetWalletInfo(wallet@),
        Command::GetWalletBalance { wallet } => CmdSpec::GetWalletBalance(wallet@),
        Command::GetWalletSpaces { wallet } => CmdSpec::GetWalletSpaces(wallet@),
        Command::GetWalletTransactions { wallet, count } => CmdSpec::GetWalletTransactions(
            wallet@,
            count as int,
        ),
        Command::GetWalletAddress { wallet, kind } => CmdSpec::GetWalletAddress(wallet@, kind),
        Command::GetSpaceInfo { slabel } => CmdSpec::GetSpaceInfo(slabel@),
        Command::SendCoins { wallet, recipient, amount, fee_rate } => (CmdSpec::SendCoins {
            wallet: wallet@,
            recipient: recipient@,
            amount: amount.spec_sats() as int,
            fee_rate: fee_opt(fee_rate),
        }),
        Command::OpenSpace { wallet, slabel, amount, fee_rate } => (CmdSpec::OpenSpace {
            wallet: wallet@,
            slabel: slabel@,
            amount: amount.spec_sats() as int,
            fee_rate: fee_opt(fee_rate),
        }),
        Command::BidSpace { wallet, slabel, amount, fee_rate } => (CmdSpec::BidSpace {
            wallet: wallet@,
            slabel: slabel@,
            amount: amount.spec_sats() as int,
            fee_rate: fee_opt(fee_rate),
        }),
        Command::RegisterSpace { wallet, slabel, fee_rate } => (CmdSpec::RegisterSpace {
            wallet: wallet@,
            slabel: slabel@,
            fee_rate: fee_opt(fee_rate),
        }),
        Command::RenewSpace { wallet, slabel, fee_rate } => (CmdSpec::RenewSpace {
            wallet: wallet@,
            slabel: slabel@,
            fee_rate: fee_opt(fee_rate),
        }),
        Command::SendSpace { wallet, recipient, slabel, fee_rate } => (CmdSpec::SendSpace {
            wallet: wallet@,
            recipient: recipient@,
            slabel: slabel@,
            fee_rate: fee_opt(fee_rate),
        }),
        Command::BumpFee { wallet, txid, fee_rate } => (CmdSpec::BumpFee {
            wallet: wallet@,
            txid: txid@,
            fee_rate: fee_rate.spec_sat_per_vb() as int,
        }),
        Command::BuySpace { wallet, listing, fee_rate } => (CmdSpec::BuySpace {
            wallet: wallet@,
            listing: listing@,
            fee_rate: fee_opt(fee_rate),
        }),
        Command::SellSpace { wallet, slabel, price } => (CmdSpec::SellSpace {
            wallet: wallet@,
            slabel: slabel@,
            price: price.spec_sats() as int,
        }),
        Command::SignEvent { wallet, slabel, event } => (CmdSpec::SignEvent {
            wallet: wallet@,
            slabel: slabel@,
            event: event@,
        }),
        Command::WriteClipboard { text } => CmdSpec::WriteClipboard(text@),
        Command::PickFile => CmdSpec::PickFile,
        Command::SaveFile { contents } => CmdSpec::SaveFile(contents@),
        Command::SaveConfig { config } => CmdSpec::SaveConfig(config),
        Command::Connect { url } => CmdSpec::Connect(url@),
    }
}

/// The ghost description of a command batch.
pub open spec fn cmd_specs(cs: Seq<Command>) -> Seq<CmdSpec> {
    cs.map_values(|c: Command| cmd_spec(c))
}

pub proof fn lemma_cmd_specs_concat(a: Seq<Command>, b: Seq<Command>)
    ensures
        cmd_specs(a + b) =~= cmd_specs(a) + cmd_specs(b),
{
    assert forall|i: int| 0 <= i < (a + b).len() implies cmd_specs(a + b)[i] == (cmd_specs(a)
        + cmd_specs(b))[i] by {
        if i < a.len() {
            assert((a + b)[i] == a[i]);
        } else {
            assert((a + b)[i] == b[i - a.len()]);
        }
    }
}

/// The whole state of the main page.
pub struct State {
    pub config: Config,
    pub screen: Screen,
    /// The last tip height the server reported; zero before any report.
    pub tip_height: u32,
    /// The global connectivity banner; set by system errors only.
    pub banner: Option<String>,
    pub wallets: WalletsCollection,
    pub spaces: SpacesCollection,
    pub home_screen: home::State,
    pub send_screen: send::State,
    pub receive_screen: receive::State,
    pub spaces_screen: spaces::State,
    pub market_screen: market::State,
    pub sign_screen: sign::State,
    pub settings_screen: settings::State,
}

impl State {
    pub open spec fn wf(self) -> bool {
        self.wallets.wf() && self.spaces.wf()
    }
}

/// The label of the currently selected wallet.
pub open spec fn cur(s: State) -> Option<Seq<char>> {
    s.wallets.spec_current()
}

/// One wallet-scoped command, or none while no wallet is selected.
pub open spec fn for_wallet(s: State, f: spec_fn(Seq<char>) -> CmdSpec) -> Seq<CmdSpec> {
    match cur(s) {
        Some(w) => seq![f(w)],
        None => Seq::empty(),
    }
}

pub open spec fn wallet_info_cmds(s: State) -> Seq<CmdSpec> {
    for_wallet(s, |w: Seq<char>| CmdSpec::GetWalletInfo(w))
}

pub open spec fn wallet_balance_cmds(s: State) -> Seq<CmdSpec> {
    for_wallet(s, |w: Seq<char>| CmdSpec::GetWalletBalance(w))
}

pub open spec fn wallet_spaces_cmds(s: State) -> Seq<CmdSpec> {
    for_wallet(s, |w: Seq<char>| CmdSpec::GetWalletSpaces(w))
}

pub open spec fn wallet_transactions_cmds(s: State) -> Seq<CmdSpec> {
    for_wallet(
        s,
        |w: Seq<char>| CmdSpec::GetWalletTransactions(
            w,
            s.home_screen.transactions_limit as int,
        ),
    )
}

pub open spec fn wallet_address_cmds(s: State, kind: AddressKind) -> Seq<CmdSpec> {
    for_wallet(s, |w: Seq<char>| CmdSpec::GetWalletAddress(w, kind))
}

/// What a tick fetches: global sync state, the current wallet's sync
/// state, and the data the active screen is displaying — polling cost
/// follows what is visible.
pub open spec fn tick_cmds(s: State) -> Seq<CmdSpec> {
    seq![CmdSpec::GetServerInfo] + wallet_info_cmds(s) + (match s.screen {
        Screen::Home => wallet_balance_cmds(s) + wallet_transactions_cmds(s),
        Screen::Spaces => wallet_spaces_cmds(s) + (if crate::slabel::valid_space_label(
            s.spaces_screen.space@,
        ) {
            seq![CmdSpec::GetSpaceInfo(s.spaces_screen.space@)]
        } else {
            Seq::empty()
        }),
        _ => Seq::empty(),
    })
}

/// The fetches that make a freshly entered screen servable, decided on
/// the state after the navigation itself.
pub open spec fn nav_cmds(post: State, route: Route) -> Seq<CmdSpec> {
    match route {
        Route::Home => wallet_balance_cmds(post) + wallet_spaces_cmds(post)
            + wallet_transactions_cmds(post),
        Route::Send => wallet_spaces_cmds(post),
        Route::Receive => wallet_address_cmds(post, AddressKind::Coin) + wallet_address_cmds(
            post,
            AddressKind::Space,
        ),
        Route::Spaces => if crate::slabel::valid_space_label(post.spaces_screen.space@) {
            seq![CmdSpec::GetSpaceInfo(post.spaces_screen.space@)]
        } else {
            wallet_spaces_cmds(post)
        },
        Route::Space(l) => seq![CmdSpec::GetSpaceInfo(l@)],
        Route::Market => wallet_spaces_cmds(post),
        Route::Sign => wallet_spaces_cmds(post),
        Route::Settings => Seq::empty(),
    }
}

pub open spec fn home_reset_rel(pre: home::State, post: home::State) -> bool {
    &&& post.txid is None
    &&& post.fee_rate@ == Seq::<char>::empty()
    &&& post.transactions_limit == pre.transactions_limit
    &&& post.error == pre.error
}

pub open spec fn send_reset_rel(pre: send::State, post: send::State) -> bool {
    &&& post.recipient@ == Seq::<char>::empty()
    &&& post.amount@ == Seq::<char>::empty()
    &&& post.slabel is None
    &&& post.fee_rate@ == Seq::<char>::empty()
    &&& post.asset_kind == pre.asset_kind
    &&& post.error == pre.error
}

pub open spec fn spaces_reset_rel(pre: spaces::State, post: spaces::State) -> bool {
    &&& post.space@ == Seq::<char>::empty()
    &&& post.amount@ == Seq::<char>::empty()
    &&& post.recipient@ == Seq::<char>::empty()
    &&& post.fee_rate@ == Seq::<char>::empty()
    &&& post.error == pre.error
}

pub open spec fn market_reset_rel(pre: market::State, post: market::State) -> bool {
    &&& post.listing@ == Seq::<char>::empty()
    &&& post.slabel is None
    &&& post.price@ == Seq::<char>::empty()
    &&& post.fee_rate@ == Seq::<char>::empty()
    &&& post.last_listing == pre.last_listing
    &&& post.error == pre.error
}

pub open spec fn sign_reset_rel(pre: sign::State, post: sign::State) -> bool {
    &&& post.slabel is None
    &&& post.event is None
    &&& post.error == pre.error
}

/// How navigation changes the state: the screen becomes the route's
/// target; navigating to the screen the user is already on clears that
/// screen's transient inputs; the caches and everything else stay
/// untouched.
pub open spec fn nav_post(pre: State, post: State, route: Route) -> bool {
    &&& post.screen == screen_of(route)
    &&& match route {
        Route::Home => {
            &&& post == (State { screen: post.screen, home_screen: post.home_screen, ..pre })
            &&& if pre.screen is Home {
                home_reset_rel(pre.home_screen, post.home_screen)
            } else {
                post.home_screen == pre.home_screen
            }
        },
        Route::Send => {
            &&& post == (State { screen: post.screen, send_screen: post.send_screen, ..pre })
            &&& if pre.screen is Send {
                send_reset_rel(pre.send_screen, post.send_screen)
            } else {
                post.send_screen == pre.send_screen
            }
        },
        Route::Receive => {
            &&& post == (State { screen: post.screen, receive_screen: post.receive_screen, ..pre })
            &&& if pre.screen is Receive {
                post.receive_screen is Home
            } else {
                post.receive_screen == pre.receive_screen
            }
        },
        Route::Spaces => {
            &&& post == (State { screen: post.screen, spaces_screen: post.spaces_screen, ..pre })
            &&& if pre.screen is Spaces {
                spaces_reset_rel(pre.spaces_screen, post.spaces_screen)
            } else {
                post.spaces_screen == pre.spaces_screen
            }
        },
        Route::Space(l) => {
            &&& post == (State { screen: post.screen, spaces_screen: post.spaces_screen, ..pre })
            &&& post.spaces_screen.space@ == l@
            &&& post.spaces_screen.amount@ == Seq::<char>::empty()
            &&& post.spaces_screen.recipient@ == Seq::<char>::empty()
            &&& post.spaces_screen.fee_rate@ == Seq::<char>::empty()
            &&& post.spaces_screen.error == pre.spaces_screen.error
        },
        Route::Market => {
            &&& post == (State { screen: post.screen, market_screen: post.market_screen, ..pre })
            &&& if pre.screen is Market {
                market_reset_rel(pre.market_screen, post.market_screen)
            } else {
                post.market_screen == pre.market_screen
            }
        },
        Route::Sign => {
            &&& post == (State { screen: post.screen, sign_screen: post.sign_screen, ..pre })
            &&& if pre.screen is Sign {
                sign_reset_rel(pre.sign_screen, post.sign_screen)
            } else {
                post.sign_screen == pre.sign_screen
            }
        },
        Route::Settings => post == (State { screen: post.screen, ..pre }),
    }
}

/// The banner after a remote outcome: success clears it, a system fault
/// raises it, a business rejection leaves it alone.
pub open spec fn banner_after(b: Option<String>, e: RemoteError) -> Option<String> {
    match e {
        RemoteError::System { message } => Some(message),
        RemoteError::Business { .. } => b,
    }
}

/// The cached value a pruned wallet list would keep for a label.
pub open spec fn pruned_val(pre: State, l: Seq<char>) -> Option<WalletData> {
    if pre.wallets@.dom().contains(l) {
        pre.wallets@[l]
    } else {
        None
    }
}

/// The wallet that ends up selected after an authoritative wallet list
/// arrives: the surviving selection, else the configured wallet if it is
/// listed, else none.
pub open spec fn chosen_current(pre: State, names: Seq<String>) -> Option<Seq<char>> {
    let survived = match cur(pre) {
        Some(c) => if labels_of(names).contains(c) {
            Some(c)
        } else {
            None
        },
        None => None,
    };
    match survived {
        Some(c) => Some(c),
        None => match pre.config.wallet {
            Some(w) => if labels_of(names).contains(w@) {
                Some(w@)
            } else {
                None
            },
            None => None,
        },
    }
}

/// The action is a command batch with exactly this ghost description.
pub open spec fn is_task_with(a: Action, cs: Seq<CmdSpec>) -> bool {
    a matches Action::Task(v) && cmd_specs(v@) =~= cs
}

/// The space cache after recording a run of listed spaces.
pub open spec fn insert_space_entries(
    m: Map<Seq<char>, Option<SpaceData>>,
    es: Seq<SpaceEntry>,
) -> Map<Seq<char>, Option<SpaceData>>
    decreases es.len(),
{
    if es.len() == 0 {
        m
    } else {
        insert_space_entries(m, es.drop_last()).insert(es.last().slabel@, Some(es.last().space))
    }
}

/// The label texts of a run of listed spaces.
pub open spec fn entry_labels(es: Seq<SpaceEntry>) -> Seq<Seq<char>> {
    es.map_values(|e: SpaceEntry| e.slabel@)
}

/// The label texts of a list of names.
pub open spec fn label_views(v: Seq<String>) -> Seq<Seq<char>> {
    v.map_values(|s: String| s@)
}

/// A wallet projection after its space lists were replaced and nothing
/// else.
pub open spec fn spaces_lists_set(old_d: WalletData, d: WalletData, ls: WalletSpacesResult) -> bool {
    &&& label_views(d.winning_spaces@) =~= entry_labels(ls.winning@)
    &&& label_views(d.outbid_spaces@) =~= entry_labels(ls.outbid@)
    &&& label_views(d.owned_spaces@) =~= entry_labels(ls.owned@)
    &&& d.sync_height == old_d.sync_height
    &&& d.synced == old_d.synced
    &&& d.balance == old_d.balance
    &&& d.coin_address == old_d.coin_address
    &&& d.space_address == old_d.space_address
    &&& d.transactions == old_d.transactions
}

/// How `set_current` changes the wallet collection.
pub open spec fn set_current_rel(
    pre: WalletsCollection,
    post: WalletsCollection,
    l: Seq<char>,
) -> bool {
    if pre@.dom().contains(l) {
        &&& post.spec_current() == Some(l)
        &&& post@.dom() =~= pre@.dom()
        &&& forall|k: Seq<char>|
            k != l && pre@.dom().contains(k) ==> post@[k] == pre@[k]
        &&& (pre@[l] is Some ==> post@[l] == pre@[l])
        &&& (pre@[l] is None ==> (post@[l] matches Some(d) && wallet_data_empty(d)))
    } else {
        post == pre
    }
}

/// The main page as it starts: an empty projection bound to this
/// configuration, on the home screen.
pub open spec fn spec_init(s: State, config: Config) -> bool {
    &&& s.wf()
    &&& s.screen is Home
    &&& s.tip_height == 0
    &&& s.banner is None
    &&& s.config == config
    &&& cur(s) is None
    &&& s.wallets@ =~= Map::<Seq<char>, Option<WalletData>>::empty()
    &&& s.spaces@ =~= Map::<Seq<char>, Option<SpaceData>>::empty()
}

impl State {
    /// Starts the main page: an empty projection, the home screen, and
    /// the two fetches that bootstrap it.
    pub fn run(config: Config) -> (r: (State, Vec<Command>))
        ensures
            spec_init(r.0, config),
            cmd_specs(r.1@) =~= seq![CmdSpec::GetServerInfo, CmdSpec::ListWallets],
    {
        let state = State {
            config,
            screen: Screen::Home,
            tip_height: 0,
            banner: None,
            wallets: WalletsCollection::new(),
            spaces: SpacesCollection::new(),
            home_screen: Default::default(),
            send_screen: Default::default(),
            receive_screen: Default::default(),
            spaces_screen: Default::default(),
            market_screen: Default::default(),
            sign_screen: Default::default(),
            settings_screen: Default::default(),
        };
        let cmds: Vec<Command> = vec![Command::GetServerInfo, Command::ListWallets];
        proof {
            assert(cmd_specs(cmds@) =~= seq![CmdSpec::GetServerInfo, CmdSpec::ListWallets]);
        }
        (state, cmds)
    }

    /// The adaptive polling interval, a pure function of cached sync
    /// heights: slow once the selected wallet has caught up with the last
    /// known tip, fast while bootstrapping or catching up.
    pub open spec fn spec_poll_interval(self) -> u64 {
        if self.tip_height != 0 && (match cur(self) {
            Some(c) => self.wallets@[c] matches Some(d) && d.sync_height >= self.tip_height,
            None => false,
        }) {
            30
        } else {
            5
        }
    }

    /// Seconds until the next tick.
    pub fn poll_interval_secs(&self) -> (r: u64)
        requires
            self.wf(),
        ensures
            r == self.spec_poll_interval(),
    {
        if self.tip_height == 0 {
            return 5;
        }
        match self.wallets.get_current() {
            Some(entry) => {
                if entry.state.sync_height >= self.tip_height {
                    30
                } else {
                    5
                }
            }
            None => 5,
        }
    }

    fn get_server_info(&self) -> (c: Vec<Command>)
        ensures
            cmd_specs(c@) =~= seq![CmdSpec::GetServerInfo],
    {
        let c = vec![Command::GetServerInfo];
        proof {
            assert(cmd_specs(c@) =~= seq![CmdSpec::GetServerInfo]);
        }
        c
    }

    fn list_wallets(&self) -> (c: Vec<Command>)
        ensures
            cmd_specs(c@) =~= seq![CmdSpec::ListWallets],
    {
        let c = vec![Command::ListWallets];
        proof {
            assert(cmd_specs(c@) =~= seq![CmdSpec::ListWallets]);
        }
        c
    }

    fn get_wallet_info(&self) -> (c: Vec<Command>)
        ensures
            cmd_specs(c@) =~= wallet_info_cmds(*self),
    {
        match self.wallets.get_current_label() {
            Some(l) => {
                let c = vec![Command::GetWalletInfo { wallet: l.clone() }];
                proof {
                    assert(cmd_specs(c@) =~= wallet_info_cmds(*self));
                }
                c
            }
            None => {
                let c = Vec::new();
                proof {
                    assert(cmd_specs(c@) =~= wallet_info_cmds(*self));
                }
                c
            }
        }
    }

    fn get_wallet_balance(&self) -> (c: Vec<Command>)
        ensures
            cmd_specs(c@) =~= wallet_balance_cmds(*self),
    {
        match self.wallets.get_current_label() {
            Some(l) => {
                let c = vec![Command::GetWalletBalance { wallet: l.clone() }];
                proof {
                    assert(cmd_specs(c@) =~= wallet_balance_cmds(*self));
                }
                c
            }
            None => {
                let c = Vec::new();
                proof {
                    assert(cmd_specs(c@) =~= wallet_balance_cmds(*self));
                }
                c
            }
        }
    }

    fn get_wallet_spaces(&self) -> (c: Vec<Command>)
        ensures
            cmd_specs(c@) =~= wallet_spaces_cmds(*self),
    {
        match self.wallets.get_current_label() {
            Some(l) => {
                let c = vec![Command::GetWalletSpaces { wallet: l.clone() }];
                proof {
                    assert(cmd_specs(c@) =~= wallet_spaces_cmds(*self));
                }
                c
            }
            None => {
                let c = Vec::new();
                proof {
                    assert(cmd_specs(c@) =~= wallet_spaces_cmds(*self));
                }
                c
            }
        }
    }

    fn get_wallet_transactions(&self) -> (c: Vec<Command>)
        ensures
            cmd_specs(c@) =~= wallet_transactions_cmds(*self),
    {
        match self.wallets.get_current_label() {
            Some(l) => {
                let c = vec![
                    Command::GetWalletTransactions {
                        wallet: l.clone(),
                        count: self.home_screen.get_transactions_limit(),
                    },
                ];
                proof {
                    assert(cmd_specs(c@) =~= wallet_transactions_cmds(*self));
                }
                c
            }
            None => {
                let c = Vec::new();
                proof {
                    assert(cmd_specs(c@) =~= wallet_transactions_cmds(*self));
                }
                c
            }
        }
    }

    fn get_wallet_address(&self, kind: AddressKind) -> (c: Vec<Command>)
        ensures
            cmd_specs(c@) =~= wallet_address_cmds(*self, kind),
    {
        match self.wallets.get_current_label() {
            Some(l) => {
                let c = vec![Command::GetWalletAddress { wallet: l.clone(), kind }];
                proof {
                    assert(cmd_specs(c@) =~= wallet_address_cmds(*self, kind));
                }
                c
            }
            None => {
                let c = Vec::new();
                proof {
                    assert(cmd_specs(c@) =~= wallet_address_cmds(*self, kind));
                }
                c
            }
        }
    }

    fn get_space_info(&self, slabel: String) -> (c: Vec<Command>)
        ensures
            cmd_specs(c@) =~= seq![CmdSpec::GetSpaceInfo(slabel@)],
    {
        let ghost l = slabel@;
        let c = vec![Command::GetSpaceInfo { slabel }];
        proof {
            assert(cmd_specs(c@) =~= seq![CmdSpec::GetSpaceInfo(l)]);
        }
        c
    }

    /// Moves to a route's screen, treating navigation to the current
    /// screen as a reset of its transient inputs, and issues exactly the
    /// fetches that make the new screen servable.
    fn navigate_to(&mut self, route: Route) -> (cmds: Vec<Command>)
        requires
            old(self).wf(),
        ensures
            final(self).wf(),
            nav_post(*old(self), *final(self), route),
            cmd_specs(cmds@) =~= nav_cmds(*final(self), route),
    {
        match route {
            Route::Home => {
                if matches!(self.screen, Screen::Home) {
                    self.home_screen.reset();
                }
                self.screen = Screen::Home;
                let mut cmds = self.get_wallet_balance();
                let mut more = self.get_wallet_spaces();
                cmds.append(&mut more);
                let mut more2 = self.get_wallet_transactions();
                cmds.append(&mut more2);
                proof {
                    assert(cmd_specs(cmds@) =~= nav_cmds(*self, route));
                }
                cmds
            }
            Route::Send => {
                if matches!(self.screen, Screen::Send) {
                    self.send_screen.reset_inputs();
                }
                self.screen = Screen::Send;
                self.get_wallet_spaces()
            }
            Route::Receive => {
                if matches!(self.screen, Screen::Receive) {
                    self.receive_screen.reset();
                }
                self.screen = Screen::Receive;
                let mut cmds = self.get_wallet_address(AddressKind::Coin);
                let mut more = self.get_wallet_address(AddressKind::Space);
                cmds.append(&mut more);
                proof {
                    assert(cmd_specs(cmds@) =~= nav_cmds(*self, route));
                }
                cmds
            }
            Route::Spaces => {
                if matches!(self.screen, Screen::Spaces) {
                    self.spaces_screen.reset_space();
                }
                self.screen = Screen::Spaces;
                match self.spaces_screen.get_slabel() {
                    Some(slabel) => self.get_space_info(slabel),
                    None => self.get_wallet_spaces(),
                }
            }
            Route::Space(slabel) => {
                self.screen = Screen::Spaces;
                self.spaces_screen.set_slabel(slabel.as_str());
                self.get_space_info(slabel)
            }
            Route::Market => {
                if matches!(self.screen, Screen::Market) {
                    self.market_screen.reset_inputs();
                }
                self.screen = Screen::Market;
                self.get_wallet_spaces()
            }
            Route::Sign => {
                if matches!(self.screen, Screen::Sign) {
                    self.sign_screen.reset_inputs();
                }
                self.screen = Screen::Sign;
                self.get_wallet_spaces()
            }
            Route::Settings => {
                self.screen = Screen::Settings;
                Vec::new()
            }
        }
    }

    fn apply_err(&mut self, e: RemoteError)
        ensures
            *final(self) == (State { banner: banner_after(old(self).banner, e), ..*old(self) }),
    {
        match e {
            RemoteError::System { message } => {
                self.banner = Some(message);
            }
            RemoteError::Business { code: _, message: _ } => {}
        }
    }

    fn bump_fee_cmd(&self, txid: String, fee_rate: FeeRate) -> (c: Vec<Command>)
        ensures
            cmd_specs(c@) =~= for_wallet(
                *self,
                |w: Seq<char>| CmdSpec::BumpFee {
                    wallet: w,
                    txid: txid@,
                    fee_rate: fee_rate.spec_sat_per_vb() as int,
                },
            ),
    {
        match self.wallets.get_current_label() {
            Some(l) => {
                let c = vec![Command::BumpFee { wallet: l.clone(), txid, fee_rate }];
                assert(cmd_specs(c@) =~= seq![cmd_spec(c@[0])]);
                c
            }
            None => Vec::new(),
        }
    }

    fn send_coins_cmd(&self, recipient: String, amount: Amount, fee_rate: Option<FeeRate>) -> (c:
        Vec<Command>)
        ensures
            cmd_specs(c@) =~= for_wallet(
                *self,
                |w: Seq<char>| CmdSpec::SendCoins {
                    wallet: w,
                    recipient: recipient@,
                    amount: amount.spec_sats() as int,
                    fee_rate: fee_opt(fee_rate),
                },
            ),
    {
        match self.wallets.get_current_label() {
            Some(l) => {
                let c = vec![Command::SendCoins { wallet: l.clone(), recipient, amount, fee_rate }];
                assert(cmd_specs(c@) =~= seq![cmd_spec(c@[0])]);
                c
            }
            None => Vec::new(),
        }
    }

    fn send_space_cmd(&self, recipient: String, slabel: String, fee_rate: Option<FeeRate>) -> (c:
        Vec<Command>)
        ensures
            cmd_specs(c@) =~= for_wallet(
                *self,
                |w: Seq<char>| CmdSpec::SendSpace {
                    wallet: w,
                    recipient: recipient@,
                    slabel: slabel@,
                    fee_rate: fee_opt(fee_rate),
                },
            ),
    {
        match self.wallets.get_current_label() {
            Some(l) => {
                let c = vec![
                    Command::SendSpace { wallet: l.clone(), recipient, slabel, fee_rate },
                ];
                assert(cmd_specs(c@) =~= seq![cmd_spec(c@[0])]);
                c
            }
            None => Vec::new(),
        }
    }

    fn open_space_cmd(&self, slabel: String, amount: Amount, fee_rate: Option<FeeRate>) -> (c: Vec<
        Command>)
        ensures
            cmd_specs(c@) =~= for_wallet(
                *self,
                |w: Seq<char>| CmdSpec::OpenSpace {
                    wallet: w,
                    slabel: slabel@,
                    amount: amount.spec_sats() as int,
                    fee_rate: fee_opt(fee_rate),
                },
            ),
    {
        match self.wallets.get_current_label() {
            Some(l) => {
                let c = vec![Command::OpenSpace { wallet: l.clone(), slabel, amount, fee_rate }];
                assert(cmd_specs(c@) =~= seq![cmd_spec(c@[0])]);
                c
            }
            None => Vec::new(),
        }
    }

    fn bid_space_cmd(&self, slabel: String, amount: Amount, fee_rate: Option<FeeRate>) -> (c: Vec<
        Command>)
        ensures
            cmd_specs(c@) =~= for_wallet(
                *self,
                |w: Seq<char>| CmdSpec::BidSpace {
                    wallet: w,
                    slabel: slabel@,
                    amount: amount.spec_sats() as int,
                    fee_rate: fee_opt(fee_rate),
                },
            ),
    {
        match self.wallets.get_current_label() {
            Some(l) => {
                let c = vec![Command::BidSpace { wallet: l.clone(), slabel, amount, fee_rate }];
                assert(cmd_specs(c@) =~= seq![cmd_spec(c@[0])]);
                c
            }
            None => Vec::new(),
        }
    }

    fn register_space_cmd(&self, slabel: String, fee_rate: Option<FeeRate>) -> (c: Vec<Command>)
        ensures
            cmd_specs(c@) =~= for_wallet(
                *self,
                |w: Seq<char>| CmdSpec::RegisterSpace {
                    wallet: w,
                    slabel: slabel@,
                    fee_rate: fee_opt(fee_rate),
                },
            ),
    {
        match self.wallets.get_current_label() {
            Some(l) => {
                let c = vec![Command::RegisterSpace { wallet: l.clone(), slabel, fee_rate }];
                assert(cmd_specs(c@) =~= seq![cmd_spec(c@[0])]);
                c
            }
            None => Vec::new(),
        }
    }

    fn buy_space_cmd(&self, listing: String, fee_rate: Option<FeeRate>) -> (c: Vec<Command>)
        ensures
            cmd_specs(c@) =~= for_wallet(
                *self,
                |w: Seq<char>| CmdSpec::BuySpace {
                    wallet: w,
                    listing: listing@,
                    fee_rate: fee_opt(fee_rate),
                },
            ),
    {
        match self.wallets.get_current_label() {
            Some(l) => {
                let c = vec![Command::BuySpace { wallet: l.clone(), listing, fee_rate }];
                assert(cmd_specs(c@) =~= seq![cmd_spec(c@[0])]);
                c
            }
            None => Vec::new(),
        }
    }

    fn sell_space_cmd(&self, slabel: String, price: Amount) -> (c: Vec<Command>)
        ensures
            cmd_specs(c@) =~= for_wallet(
                *self,
                |w: Seq<char>| CmdSpec::SellSpace {
                    wallet: w,
                    slabel: slabel@,
                    price: price.spec_sats() as int,
                },
            ),
    {
        match self.wallets.get_current_label() {
            Some(l) => {
                let c = vec![Command::SellSpace { wallet: l.clone(), slabel, price }];
                assert(cmd_specs(c@) =~= seq![cmd_spec(c@[0])]);
                c
            }
            None => Vec::new(),
        }
    }

    fn sign_event_cmd(&self, slabel: String, event: String) -> (c: Vec<Command>)
        ensures
            cmd_specs(c@) =~= for_wallet(
                *self,
                |w: Seq<char>| CmdSpec::SignEvent { wallet: w, slabel: slabel@, event: event@ },
            ),
    {
        match self.wallets.get_current_label() {
            Some(l) => {
                let c = vec![Command::SignEvent { wallet: l.clone(), slabel, event }];
                assert(cmd_specs(c@) =~= seq![cmd_spec(c@[0])]);
                c
            }
            None => Vec::new(),
        }
    }
}

/// Records a run of listed spaces in the space cache and hands back their
/// labels in order.
fn collect_spaces(spaces: &mut SpacesCollection, entries: Vec<SpaceEntry>) -> (labels: Vec<String>)
    requires
        old(spaces).wf(),
    ensures
        final(spaces).wf(),
        final(spaces)@ =~= insert_space_entries(old(spaces)@, entries@),
        label_views(labels@) =~= entry_labels(entries@),
{
    let ghost orig = spaces@;
    let ghost all = entries@;
    let mut entries = entries;
    let mut labels: Vec<String> = Vec::new();
    let ghost mut processed: Seq<SpaceEntry> = Seq::empty();
    proof {
        assert(spaces@ =~= insert_space_entries(orig, processed));
        assert(label_views(labels@) =~= entry_labels(processed));
        assert(label_views(labels@) == entry_labels(processed));
    }
    while entries.len() > 0
        invariant
            spaces.wf(),
            all =~= processed + entries@,
            spaces@ =~= insert_space_entries(orig, processed),
            label_views(labels@) == entry_labels(processed),
        decreases entries@.len(),
    {
        let e = entries.remove(0);
        let ghost ge = e;
        let ghost pre_processed = processed;
        let ghost pre_labels = labels@;
        labels.push(e.slabel.clone());
        proof {
            processed = processed.push(ge);
            assert(processed.drop_last() =~= pre_processed);
            assert(processed.last() == ge);
            assert(all =~= processed + entries@);
            assert(label_views(labels@) =~= entry_labels(processed)) by {
                assert(label_views(pre_labels) == entry_labels(pre_processed));
                assert(label_views(pre_labels).len() == pre_labels.len());
                assert(entry_labels(pre_processed).len() == pre_processed.len());
                assert(pre_labels.len() == pre_processed.len());
                assert(labels@ == pre_labels.push(ge.slabel));
                assert(labels@.len() == processed.len());
                assert forall|i: int| 0 <= i < processed.len() implies label_views(labels@)[i]
                    == entry_labels(processed)[i] by {
                    if i < processed.len() - 1 {
                        assert(label_views(pre_labels)[i] == entry_labels(pre_processed)[i]);
                        assert(labels@[i] == pre_labels[i]);
                        assert(processed[i] == pre_processed[i]);
                    } else {
                        assert(labels@[i] == ge.slabel);
                        assert(processed[i] == ge);
                    }
                }
            }
            assert(label_views(labels@) == entry_labels(processed));
        }
        spaces.set(e.slabel, Some(e.space));
        proof {
            assert(spaces@ =~= insert_space_entries(orig, processed));
        }
    }
    proof {
        assert(processed =~= all);
    }
    labels
}

/// How a message that belongs to the home screen is handled: a system
/// fault raises the banner and is not forwarded; anything else reaches
/// the controller, whose action the reducer turns into commands.
pub open spec fn home_msg_rel(pre: State, m: home::Message, post: State, a: Action) -> bool {
    match m {
        home::Message::BumpFeeResult(Err(RemoteError::System { message })) => {
            &&& post == (State { banner: Some(message), ..pre })
            &&& is_task_with(a, Seq::empty())
        },
        _ => exists|act: home::Action|
            {
                &&& #[trigger] home::update_rel(pre.home_screen, m, post.home_screen, act)
                &&& home_act_rel(pre, post, act, a)
            },
    }
}

pub open spec fn home_act_rel(pre: State, post: State, act: home::Action, a: Action) -> bool {
    match act {
        home::Action::Nothing => {
            &&& post == (State { home_screen: post.home_screen, ..pre })
            &&& is_task_with(a, Seq::empty())
        },
        home::Action::GetTransactions => {
            &&& post == (State { home_screen: post.home_screen, ..pre })
            &&& is_task_with(a, wallet_transactions_cmds(post))
        },
        home::Action::ShowSpace { slabel } => {
            &&& nav_post(
                (State { home_screen: post.home_screen, ..pre }),
                post,
                Route::Space(slabel),
            )
            &&& is_task_with(a, nav_cmds(post, Route::Space(slabel)))
        },
        home::Action::BumpFee { txid, fee_rate } => {
            &&& post == (State { home_screen: post.home_screen, ..pre })
            &&& is_task_with(
                a,
                for_wallet(
                    post,
                    |w: Seq<char>| CmdSpec::BumpFee {
                        wallet: w,
                        txid: txid@,
                        fee_rate: fee_rate.spec_sat_per_vb() as int,
                    },
                ),
            )
        },
    }
}

pub open spec fn send_msg_rel(pre: State, m: send::Message, post: State, a: Action) -> bool {
    match m {
        send::Message::ClientResult(Err(RemoteError::System { message })) => {
            &&& post == (State { banner: Some(message), ..pre })
            &&& is_task_with(a, Seq::empty())
        },
        _ => exists|act: send::Action|
            {
                &&& #[trigger] send::update_rel(pre.send_screen, m, post.send_screen, act)
                &&& send_act_rel(pre, post, act, a)
            },
    }
}

pub open spec fn send_act_rel(pre: State, post: State, act: send::Action, a: Action) -> bool {
    match act {
        send::Action::Nothing => {
            &&& post == (State { send_screen: post.send_screen, ..pre })
            &&& is_task_with(a, Seq::empty())
        },
        send::Action::SendCoins { recipient, amount, fee_rate } => {
            &&& post == (State { send_screen: post.send_screen, ..pre })
            &&& is_task_with(
                a,
                for_wallet(
                    post,
                    |w: Seq<char>| CmdSpec::SendCoins {
                        wallet: w,
                        recipient: recipient@,
                        amount: amount.spec_sats() as int,
                        fee_rate: fee_opt(fee_rate),
                    },
                ),
            )
        },
        send::Action::SendSpace { recipient, slabel, fee_rate } => {
            &&& post == (State { send_screen: post.send_screen, ..pre })
            &&& is_task_with(
                a,
                for_wallet(
                    post,
                    |w: Seq<char>| CmdSpec::SendSpace {
                        wallet: w,
                        recipient: recipient@,
                        slabel: slabel@,
                        fee_rate: fee_opt(fee_rate),
                    },
                ),
            )
        },
        send::Action::ShowTransactions => {
            &&& nav_post((State { send_screen: post.send_screen, ..pre }), post, Route::Home)
            &&& is_task_with(a, nav_cmds(post, Route::Home))
        },
    }
}

pub open spec fn receive_msg_rel(pre: State, m: receive::Message, post: State, a: Action) -> bool {
    exists|act: receive::Task|
        {
            &&& #[trigger] receive::update_rel(pre.receive_screen, m, post.receive_screen, act)
            &&& post == (State { receive_screen: post.receive_screen, ..pre })
            &&& match act {
                receive::Task::Nothing => is_task_with(a, Seq::empty()),
                receive::Task::WriteClipboard(s) => is_task_with(
                    a,
                    seq![CmdSpec::WriteClipboard(s@)],
                ),
            }
        }
}

pub open spec fn spaces_msg_rel(pre: State, m: spaces::Message, post: State, a: Action) -> bool {
    match m {
        spaces::Message::ClientResult(Err(RemoteError::System { message })) => {
            &&& post == (State { banner: Some(message), ..pre })
            &&& is_task_with(a, Seq::empty())
        },
        _ => exists|act: spaces::Task|
            {
                &&& #[trigger] spaces::update_rel(pre.spaces_screen, m, post.spaces_screen, act)
                &&& spaces_act_rel(pre, post, act, a)
            },
    }
}

pub open spec fn spaces_act_rel(pre: State, post: State, act: spaces::Task, a: Action) -> bool {
    match act {
        spaces::Task::Nothing => {
            &&& post == (State { spaces_screen: post.spaces_screen, ..pre })
            &&& is_task_with(a, Seq::empty())
        },
        spaces::Task::GetSpaceInfo { slabel } => {
            &&& post == (State { spaces_screen: post.spaces_screen, ..pre })
            &&& is_task_with(a, seq![CmdSpec::GetSpaceInfo(slabel@)])
        },
        spaces::Task::OpenSpace { slabel, amount, fee_rate } => {
            &&& post == (State { spaces_screen: post.spaces_screen, ..pre })
            &&& is_task_with(
                a,
                for_wallet(
                    post,
                    |w: Seq<char>| CmdSpec::OpenSpace {
                        wallet: w,
                        slabel: slabel@,
                        amount: amount.spec_sats() as int,
                        fee_rate: fee_opt(fee_rate),
                    },
                ),
            )
        },
        spaces::Task::BidSpace { slabel, amount, fee_rate } => {
            &&& post == (State { spaces_screen: post.spaces_screen, ..pre })
            &&& is_task_with(
                a,
                for_wallet(
                    post,
                    |w: Seq<char>| CmdSpec::BidSpace {
                        wallet: w,
                        slabel: slabel@,
                        amount: amount.spec_sats() as int,
                        fee_rate: fee_opt(fee_rate),
                    },
                ),
            )
        },
        spaces::Task::ClaimSpace { slabel, fee_rate } => {
            &&& post == (State { spaces_screen: post.spaces_screen, ..pre })
            &&& is_task_with(
                a,
                for_wallet(
                    post,
                    |w: Seq<char>| CmdSpec::RegisterSpace {
                        wallet: w,
                        slabel: slabel@,
                        fee_rate: fee_opt(fee_rate),
                    },
                ),
            )
        },
        spaces::Task::TransferSpace { slabel, recipient, fee_rate } => {
            &&& post == (State { spaces_screen: post.spaces_screen, ..pre })
            &&& is_task_with(
                a,
                for_wallet(
                    post,
                    |w: Seq<char>| CmdSpec::SendSpace {
                        wallet: w,
                        recipient: recipient@,
                        slabel: slabel@,
                        fee_rate: fee_opt(fee_rate),
                    },
                ),
            )
        },
        spaces::Task::ShowTransactions => {
            &&& nav_post((State { spaces_screen: post.spaces_screen, ..pre }), post, Route::Home)
            &&& is_task_with(a, nav_cmds(post, Route::Home))
        },
    }
}

pub open spec fn market_msg_rel(pre: State, m: market::Message, post: State, a: Action) -> bool {
    match m {
        market::Message::BuyResult(Err(RemoteError::System { message })) => {
            &&& post == (State { banner: Some(message), ..pre })
            &&& is_task_with(a, Seq::empty())
        },
        market::Message::SellResult(Err(RemoteError::System { message })) => {
            &&& post == (State { banner: Some(message), ..pre })
            &&& is_task_with(a, Seq::empty())
        },
        _ => exists|act: market::Action|
            {
                &&& #[trigger] market::update_rel(pre.market_screen, m, post.market_screen, act)
                &&& market_act_rel(pre, post, act, a)
            },
    }
}

pub open spec fn market_act_rel(pre: State, post: State, act: market::Action, a: Action) -> bool {
    match act {
        market::Action::Nothing => {
            &&& post == (State { market_screen: post.market_screen, ..pre })
            &&& is_task_with(a, Seq::empty())
        },
        market::Action::Buy { listing, fee_rate } => {
            &&& post == (State { market_screen: post.market_screen, ..pre })
            &&& is_task_with(
                a,
                for_wallet(
                    post,
                    |w: Seq<char>| CmdSpec::BuySpace {
                        wallet: w,
                        listing: listing@,
                        fee_rate: fee_opt(fee_rate),
                    },
                ),
            )
        },
        market::Action::Sell { slabel, price } => {
            &&& post == (State { market_screen: post.market_screen, ..pre })
            &&& is_task_with(
                a,
                for_wallet(
                    post,
                    |w: Seq<char>| CmdSpec::SellSpace {
                        wallet: w,
                        slabel: slabel@,
                        price: price.spec_sats() as int,
                    },
                ),
            )
        },
        market::Action::WriteClipboard(s) => {
            &&& post == (State { market_screen: post.market_screen, ..pre })
            &&& is_task_with(a, seq![CmdSpec::WriteClipboard(s@)])
        },
        market::Action::ShowTransactions => {
            &&& nav_post((State { market_screen: post.market_screen, ..pre }), post, Route::Home)
            &&& is_task_with(a, nav_cmds(post, Route::Home))
        },
    }
}

pub open spec fn sign_msg_rel(pre: State, m: sign::Message, post: State, a: Action) -> bool {
    exists|act: sign::Action|
        {
            &&& #[trigger] sign::update_rel(pre.sign_screen, m, post.sign_screen, act)
            &&& post == (State { sign_screen: post.sign_screen, ..pre })
            &&& match act {
                sign::Action::Nothing => is_task_with(a, Seq::empty()),
                sign::Action::FilePick => is_task_with(a, seq![CmdSpec::PickFile]),
                sign::Action::Sign { slabel, event } => is_task_with(
                    a,
                    for_wallet(
                        post,
                        |w: Seq<char>| CmdSpec::SignEvent {
                            wallet: w,
                            slabel: slabel@,
                            event: event@,
                        },
                    ),
                ),
            }
        }
}

pub open spec fn settings_msg_rel(pre: State, m: settings::Message, post: State, a: Action) -> bool {
    match m {
        settings::Message::WalletCreated(Err(RemoteError::System { message })) => {
            &&& post == (State { banner: Some(message), ..pre })
            &&& is_task_with(a, Seq::empty())
        },
        settings::Message::WalletFileImported(Err(RemoteError::System { message })) => {
            &&& post == (State { banner: Some(message), ..pre })
            &&& is_task_with(a, Seq::empty())
        },
        _ => exists|act: settings::Action|
            {
                &&& #[trigger] settings::update_rel(
                    pre.settings_screen,
                    m,
                    post.settings_screen,
                    act,
                )
                &&& settings_act_rel(pre, post, act, a)
            },
    }
}

pub open spec fn settings_act_rel(
    pre: State,
    post: State,
    act: settings::Action,
    a: Action,
) -> bool {
    match act {
        settings::Action::Nothing => {
            &&& post == (State { settings_screen: post.settings_screen, ..pre })
            &&& is_task_with(a, Seq::empty())
        },
        settings::Action::SetCurrentWallet(name) => {
            &&& post.config == (Config { wallet: Some(name), ..pre.config })
            &&& set_current_rel(pre.wallets, post.wallets, name@)
            &&& post == (State {
                settings_screen: post.settings_screen,
                wallets: post.wallets,
                config: post.config,
                ..pre
            })
            &&& is_task_with(a, seq![CmdSpec::SaveConfig(post.config), CmdSpec::ListWallets])
        },
        settings::Action::CreateWallet(name) => {
            &&& post.config == (Config { wallet: None, ..pre.config })
            &&& post.wallets.spec_current() is None
            &&& post.wallets@ == pre.wallets@
            &&& post == (State {
                settings_screen: post.settings_screen,
                wallets: post.wallets,
                config: post.config,
                ..pre
            })
            &&& is_task_with(a, seq![CmdSpec::CreateWallet(name@), CmdSpec::ListWallets])
        },
        settings::Action::ExportWallet(name) => {
            &&& post == (State { settings_screen: post.settings_screen, ..pre })
            &&& is_task_with(a, seq![CmdSpec::ExportWallet(name@)])
        },
        settings::Action::FilePick => {
            &&& post == (State { settings_screen: post.settings_screen, ..pre })
            &&& is_task_with(a, seq![CmdSpec::PickFile])
        },
        settings::Action::ImportWallet(contents) => {
            &&& post.config == (Config { wallet: None, ..pre.config })
            &&& post.wallets.spec_current() is None
            &&& post.wallets@ == pre.wallets@
            &&& post == (State {
                settings_screen: post.settings_screen,
                wallets: post.wallets,
                config: post.config,
                ..pre
            })
            &&& is_task_with(a, seq![CmdSpec::ImportWallet(contents@), CmdSpec::ListWallets])
        },
        settings::Action::ResetBackend => {
            &&& post == (State { settings_screen: post.settings_screen, ..pre })
            &&& a == Action::Return(post.config)
        },
    }
}

/// The whole behavior of one reducer step, message by message.
pub open spec fn update_rel(pre: State, message: Message, post: State, a: Action) -> bool {
    match message {
        Message::Tick => {
            &&& post == pre
            &&& is_task_with(a, tick_cmds(pre))
        },
        Message::NavigateTo(route) => {
            &&& nav_post(pre, post, route)
            &&& is_task_with(a, nav_cmds(post, route))
        },
        Message::ServerInfo(result) => match result {
            Ok(info) => {
                &&& post == (State { tip_height: info.chain_headers, banner: None, ..pre })
                &&& is_task_with(a, Seq::empty())
            },
            Err(e) => {
                &&& post == (State { banner: banner_after(pre.banner, e), ..pre })
                &&& is_task_with(a, Seq::empty())
            },
        },
        Message::ListWallets(result) => match result {
            Ok(names) => {
                let chosen = chosen_current(pre, names@);
                &&& post.wallets.wf()
                &&& post.wallets@.dom() =~= labels_of(names@)
                &&& post.wallets.spec_current() == chosen
                &&& forall|l: Seq<char>|
                    post.wallets@.dom().contains(l) && Some(l) != chosen
                        ==> post.wallets@[l] == pruned_val(pre, l)
                &&& match chosen {
                    Some(c) => {
                        &&& (pruned_val(pre, c) is Some ==> post.wallets@[c] == pruned_val(pre, c))
                        &&& (pruned_val(pre, c) is None ==> (post.wallets@[c] matches Some(d)
                            && wallet_data_empty(d)))
                        &&& post == (State { wallets: post.wallets, banner: None, ..pre })
                        &&& is_task_with(a, seq![CmdSpec::LoadWallet(c)])
                    },
                    None => {
                        &&& post == (State {
                            wallets: post.wallets,
                            banner: None,
                            screen: Screen::Settings,
                            ..pre
                        })
                        &&& is_task_with(a, Seq::empty())
                    },
                }
            },
            Err(e) => {
                &&& post == (State { banner: banner_after(pre.banner, e), ..pre })
                &&& is_task_with(a, seq![CmdSpec::ListWallets])
            },
        },
        Message::WalletLoad(wr) => match wr.result {
            Ok(_) => {
                &&& nav_post((State { banner: None, ..pre }), post, Route::Home)
                &&& is_task_with(a, wallet_info_cmds(post) + nav_cmds(post, Route::Home))
            },
            Err(e) => {
                &&& post == (State { banner: banner_after(pre.banner, e), ..pre })
                &&& is_task_with(a, Seq::empty())
            },
        },
        Message::WalletInfo(wr) => match wr.result {
            Ok(info) => {
                &&& (pre.wallets.loaded(wr.label@) ==> post.wallets@ =~= pre.wallets@.insert(
                    wr.label@,
                    Some(with_sync(pre.wallets@[wr.label@]->0, info.sync_height, info.synced)),
                ))
                &&& (!pre.wallets.loaded(wr.label@) ==> post.wallets == pre.wallets)
                &&& post.wallets.wf()
                &&& post.wallets.spec_current() == pre.wallets.spec_current()
                &&& post == (State { wallets: post.wallets, banner: None, ..pre })
                &&& is_task_with(a, Seq::empty())
            },
            Err(e) => {
                &&& post == (State { banner: banner_after(pre.banner, e), ..pre })
                &&& is_task_with(a, Seq::empty())
            },
        },
        Message::WalletBalance(wr) => match wr.result {
            Ok(balance) => {
                &&& (pre.wallets.loaded(wr.label@) ==> post.wallets@ =~= pre.wallets@.insert(
                    wr.label@,
                    Some(with_balance(pre.wallets@[wr.label@]->0, balance)),
                ))
                &&& (!pre.wallets.loaded(wr.label@) ==> post.wallets == pre.wallets)
                &&& post.wallets.wf()
                &&& post.wallets.spec_current() == pre.wallets.spec_current()
                &&& post == (State { wallets: post.wallets, banner: None, ..pre })
                &&& is_task_with(a, Seq::empty())
            },
            Err(e) => {
                &&& post == (State { banner: banner_after(pre.banner, e), ..pre })
                &&& is_task_with(a, Seq::empty())
            },
        },
        Message::WalletSpaces(wr) => match wr.result {
            Ok(ls) => {
                &&& (pre.wallets.loaded(wr.label@) ==> {
                    &&& post.wallets@.dom() =~= pre.wallets@.dom()
                    &&& (forall|l: Seq<char>|
                        l != wr.label@ && pre.wallets@.dom().contains(l)
                            ==> post.wallets@[l] == pre.wallets@[l])
                    &&& (post.wallets@[wr.label@] matches Some(d) && spaces_lists_set(
                        pre.wallets@[wr.label@]->0,
                        d,
                        ls,
                    ))
                    &&& post.spaces@ =~= insert_space_entries(
                        insert_space_entries(
                            insert_space_entries(pre.spaces@, ls.winning@),
                            ls.outbid@,
                        ),
                        ls.owned@,
                    )
                })
                &&& (!pre.wallets.loaded(wr.label@) ==> post.wallets == pre.wallets && post.spaces
                    == pre.spaces)
                &&& post.wallets.wf()
                &&& post.spaces.wf()
                &&& post.wallets.spec_current() == pre.wallets.spec_current()
                &&& post == (State {
                    wallets: post.wallets,
                    spaces: post.spaces,
                    banner: None,
                    ..pre
                })
                &&& is_task_with(a, Seq::empty())
            },
            Err(e) => {
                &&& post == (State { banner: banner_after(pre.banner, e), ..pre })
                &&& is_task_with(a, Seq::empty())
            },
        },
        Message::WalletTransactions(wr) => match wr.result {
            Ok(txs) => {
                &&& (pre.wallets.loaded(wr.label@) ==> post.wallets@ =~= pre.wallets@.insert(
                    wr.label@,
                    Some(with_transactions(pre.wallets@[wr.label@]->0, txs)),
                ))
                &&& (!pre.wallets.loaded(wr.label@) ==> post.wallets == pre.wallets)
                &&& post.wallets.wf()
                &&& post.wallets.spec_current() == pre.wallets.spec_current()
                &&& post == (State { wallets: post.wallets, banner: None, ..pre })
                &&& is_task_with(a, Seq::empty())
            },
            Err(e) => {
                &&& post == (State { banner: banner_after(pre.banner, e), ..pre })
                &&& is_task_with(a, Seq::empty())
            },
        },
        Message::WalletAddress(wr) => match wr.result {
            Ok(payload) => {
                &&& (pre.wallets.loaded(wr.label@) ==> exists|ad: AddressData|
                    {
                        &&& #[trigger] ad.spec_text() == payload.1@
                        &&& post.wallets@ =~= pre.wallets@.insert(
                            wr.label@,
                            Some(
                                crate::state::with_address(
                                    pre.wallets@[wr.label@]->0,
                                    payload.0,
                                    ad,
                                ),
                            ),
                        )
                    })
                &&& (!pre.wallets.loaded(wr.label@) ==> post.wallets == pre.wallets)
                &&& post.wallets.wf()
                &&& post.wallets.spec_current() == pre.wallets.spec_current()
                &&& post == (State { wallets: post.wallets, banner: None, ..pre })
                &&& is_task_with(a, Seq::empty())
            },
            Err(e) => {
                &&& post == (State { banner: banner_after(pre.banner, e), ..pre })
                &&& is_task_with(a, Seq::empty())
            },
        },
        Message::SpaceInfo(result) => match result {
            Ok(payload) => {
                &&& post.spaces@ =~= pre.spaces@.insert(payload.0@, payload.1)
                &&& post.spaces.wf()
                &&& post == (State { spaces: post.spaces, banner: None, ..pre })
                &&& is_task_with(a, Seq::empty())
            },
            Err(e) => {
                &&& post == (State { banner: banner_after(pre.banner, e), ..pre })
                &&& is_task_with(a, Seq::empty())
            },
        },
        Message::HomeScreen(m) => home_msg_rel(pre, m, post, a),
        Message::SendScreen(m) => send_msg_rel(pre, m, post, a),
        Message::ReceiveScreen(m) => receive_msg_rel(pre, m, post, a),
        Message::SpacesScreen(m) => spaces_msg_rel(pre, m, post, a),
        Message::MarketScreen(m) => market_msg_rel(pre, m, post, a),
        Message::SignScreen(m) => sign_msg_rel(pre, m, post, a),
        Message::SettingsScreen(m) => settings_msg_rel(pre, m, post, a),
    }
}

impl State {
    /// The reducer: applies one message to the state and says what the
    /// host should do next.  Remote results are applied to the cache slot
    /// of the label they carry; a result for a label no longer tracked is
    /// dropped.  Business errors stay on the screen that issued the
    /// request; system errors raise the global banner and touch no cached
    /// projection.
    #[verifier::rlimit(100)]
    #[verifier::spinoff_prover]
    pub fn update(&mut self, message: Message) -> (a: Action)
        requires
            old(self).wf(),
        ensures
            final(self).wf(),
            update_rel(*old(self), message, *final(self), a),
    {
        let ghost gmsg = message;
        match message {
            Message::Tick => {
                let mut cmds = self.get_server_info();
                let mut more = self.get_wallet_info();
                cmds.append(&mut more);
                match self.screen {
                    Screen::Home => {
                        let mut b = self.get_wallet_balance();
                        cmds.append(&mut b);
                        let mut t = self.get_wallet_transactions();
                        cmds.append(&mut t);
                    }
                    Screen::Spaces => {
                        let mut s = self.get_wallet_spaces();
                        cmds.append(&mut s);
                        match self.spaces_screen.get_slabel() {
                            Some(slabel) => {
                                let mut g = self.get_space_info(slabel);
                                cmds.append(&mut g);
                            }
                            None => {}
                        }
                    }
                    _ => {}
                }
                proof {
                    assert(cmd_specs(cmds@) =~= tick_cmds(*old(self)));
                }
                let r = Action::Task(cmds);
                proof {
                    assert(update_rel(*old(self), gmsg, *self, r));
                }
                r
            }
            Message::NavigateTo(route) => {
                let r = Action::Task(self.navigate_to(route));
                proof {
                    assert(update_rel(*old(self), gmsg, *self, r));
                }
                r
            }
            Message::ServerInfo(result) => {
                match result {
                    Ok(info) => {
                        self.tip_height = info.chain_headers;
                        self.banner = None;
                    }
                    Err(e) => {
                        self.apply_err(e);
                    }
                }
                Action::Task(Vec::new())
            }
            Message::ListWallets(result) => {
                match result {
                    Ok(names) => {
                        self.banner = None;
                        self.wallets.set_wallets(&names);
                        let has_current = match self.wallets.get_current_label() {
                            Some(_) => true,
                            None => false,
                        };
                        if !has_current {
                            let cfg_wallet = match &self.config.wallet {
                                Some(w) => Some(w.clone()),
                                None => None,
                            };
                            match cfg_wallet {
                                Some(w) => {
                                    proof {
                                        assert(self.wallets@.dom().contains(w@)
                                            ==> self.wallets@[w@] == pruned_val(*old(self), w@));
                                    }
                                    let _ = self.wallets.set_current(w.as_str());
                                }
                                None => {}
                            }
                        }
                        let chosen_label = match self.wallets.get_current_label() {
                            Some(l) => Some(l.clone()),
                            None => None,
                        };
                        proof {
                            let pre = *old(self);
                            pre.wallets.lemma_wf_current();
                            self.wallets.lemma_wf_current();
                            let chosen = chosen_current(pre, names@);
                            assert(self.wallets@.dom() =~= labels_of(names@));
                            assert(self.wallets.spec_current() == chosen);
                            assert(forall|l: Seq<char>|
                                self.wallets@.dom().contains(l) && Some(l) != chosen
                                    ==> self.wallets@[l] == pruned_val(pre, l));
                            assert(*self == (State {
                                wallets: self.wallets,
                                banner: None,
                                ..pre
                            }));
                        }
                        match chosen_label {
                            Some(l) => {
                                let c = vec![Command::LoadWallet { wallet: l }];
                                proof {
                                    assert(cmd_specs(c@) =~= seq![cmd_spec(c@[0])]);
                                }
                                let r = Action::Task(c);
                                proof {
                                    let pre = *old(self);
                                    let chosen = chosen_current(pre, names@);
                                    assert(chosen is Some);
                                    let cval = chosen->0;
                                    assert(pruned_val(pre, cval) is Some ==> self.wallets@[cval]
                                        == pruned_val(pre, cval));
                                    assert(pruned_val(pre, cval) is None ==> (
                                    self.wallets@[cval] matches Some(d) && wallet_data_empty(d)));
                                    assert(is_task_with(r, seq![CmdSpec::LoadWallet(cval)]));
                                    assert(update_rel(*old(self), gmsg, *self, r));
                                }
                                r
                            }
                            None => {
                                let r = Action::Task(self.navigate_to(Route::Settings));
                                proof {
                                    assert(update_rel(*old(self), gmsg, *self, r));
                                }
                                r
                            }
                        }
                    }
                    Err(e) => {
                        self.apply_err(e);
                        Action::Task(self.list_wallets())
                    }
                }
            }
            Message::WalletLoad(wr) => {
                match wr.result {
                    Ok(_) => {
                        self.banner = None;
                        let mut cmds = self.get_wallet_info();
                        let ghost first = cmds@;
                        let mut more = self.navigate_to(Route::Home);
                        let ghost second = more@;
                        cmds.append(&mut more);
                        proof {
                            assert(cmds@ == first + second);
                            lemma_cmd_specs_concat(first, second);
                            assert(cmd_specs(cmds@) =~= wallet_info_cmds(*self) + nav_cmds(
                                *self,
                                Route::Home,
                            ));
                        }
                        Action::Task(cmds)
                    }
                    Err(e) => {
                        self.apply_err(e);
                        Action::Task(Vec::new())
                    }
                }
            }
            Message::WalletInfo(wr) => {
                let WalletResult { label, result } = wr;
                match result {
                    Ok(info) => {
                        self.banner = None;
                        self.wallets.set_sync(label.as_str(), info.sync_height, info.synced);
                    }
                    Err(e) => {
                        self.apply_err(e);
                    }
                }
                Action::Task(Vec::new())
            }
            Message::WalletBalance(wr) => {
                let WalletResult { label, result } = wr;
                match result {
                    Ok(balance) => {
                        self.banner = None;
                        self.wallets.set_balance(label.as_str(), balance);
                    }
                    Err(e) => {
                        self.apply_err(e);
                    }
                }
                Action::Task(Vec::new())
            }
            Message::WalletSpaces(wr) => {
                let WalletResult { label, result } = wr;
                match result {
                    Ok(ls) => {
                        self.banner = None;
                        if self.wallets.is_loaded(label.as_str()) {
                            let WalletSpacesResult { winning, outbid, owned } = ls;
                            let w_labels = collect_spaces(&mut self.spaces, winning);
                            let o_labels = collect_spaces(&mut self.spaces, outbid);
                            let ow_labels = collect_spaces(&mut self.spaces, owned);
                            self.wallets.set_spaces(label.as_str(), w_labels, o_labels, ow_labels);
                        }
                    }
                    Err(e) => {
                        self.apply_err(e);
                    }
                }
                let r = Action::Task(Vec::new());
                proof {
                    assert(update_rel(*old(self), gmsg, *self, r));
                }
                r
            }
            Message::WalletTransactions(wr) => {
                let WalletResult { label, result } = wr;
                match result {
                    Ok(txs) => {
                        self.banner = None;
                        self.wallets.set_transactions(label.as_str(), txs);
                    }
                    Err(e) => {
                        self.apply_err(e);
                    }
                }
                Action::Task(Vec::new())
            }
            Message::WalletAddress(wr) => {
                let WalletResult { label, result } = wr;
                match result {
                    Ok(payload) => {
                        self.banner = None;
                        let ghost text = payload.1@;
                        let addr = AddressData::new(payload.1);
                        let ghost gad = addr;
                        self.wallets.set_address(label.as_str(), payload.0, addr);
                        proof {
                            assert(gad.spec_text() == text);
                        }
                    }
                    Err(e) => {
                        self.apply_err(e);
                    }
                }
                Action::Task(Vec::new())
            }
            Message::SpaceInfo(result) => {
                match result {
                    Ok(payload) => {
                        self.banner = None;
                        self.spaces.set(payload.0, payload.1);
                    }
                    Err(e) => {
                        self.apply_err(e);
                    }
                }
                Action::Task(Vec::new())
            }
            Message::HomeScreen(m) => {
                match m {
                    home::Message::BumpFeeResult(Err(RemoteError::System { message })) => {
                        self.banner = Some(message);
                        Action::Task(Vec::new())
                    }
                    other => {
                        let act = self.home_screen.update(other);
                        let ghost g_act = act;
                        let a = match act {
                            home::Action::Nothing => Action::Task(Vec::new()),
                            home::Action::GetTransactions => Action::Task(
                                self.get_wallet_transactions(),
                            ),
                            home::Action::ShowSpace { slabel } => Action::Task(
                                self.navigate_to(Route::Space(slabel)),
                            ),
                            home::Action::BumpFee { txid, fee_rate } => Action::Task(
                                self.bump_fee_cmd(txid, fee_rate),
                            ),
                        };
                        proof {
                            assert(home_act_rel(*old(self), *self, g_act, a));
                        }
                        a
                    }
                }
            }
            Message::SendScreen(m) => {
                match m {
                    send::Message::ClientResult(Err(RemoteError::System { message })) => {
                        self.banner = Some(message);
                        Action::Task(Vec::new())
                    }
                    other => {
                        let act = self.send_screen.update(other);
                        let ghost g_act = act;
                        let a = match act {
                            send::Action::Nothing => Action::Task(Vec::new()),
                            send::Action::SendCoins { recipient, amount, fee_rate } => Action::Task(
                                self.send_coins_cmd(recipient, amount, fee_rate),
                            ),
                            send::Action::SendSpace { recipient, slabel, fee_rate } => Action::Task(
                                self.send_space_cmd(recipient, slabel, fee_rate),
                            ),
                            send::Action::ShowTransactions => Action::Task(
                                self.navigate_to(Route::Home),
                            ),
                        };
                        proof {
                            assert(send_act_rel(*old(self), *self, g_act, a));
                        }
                        a
                    }
                }
            }
            Message::ReceiveScreen(m) => {
                let ghost gm = m;
                let act = self.receive_screen.update(m);
                let ghost g_act = act;
                proof {
                    assert(receive::update_rel(
                        old(self).receive_screen,
                        gm,
                        self.receive_screen,
                        g_act,
                    ));
                }
                match act {
                    receive::Task::Nothing => Action::Task(Vec::new()),
                    receive::Task::WriteClipboard(s) => {
                        let c = vec![Command::WriteClipboard { text: s }];
                        proof {
                            assert(cmd_specs(c@) =~= seq![cmd_spec(c@[0])]);
                        }
                        Action::Task(c)
                    }
                }
            }
            Message::SpacesScreen(m) => {
                match m {
                    spaces::Message::ClientResult(Err(RemoteError::System { message })) => {
                        self.banner = Some(message);
                        Action::Task(Vec::new())
                    }
                    other => {
                        let act = self.spaces_screen.update(other);
                        let ghost g_act = act;
                        let a = match act {
                            spaces::Task::Nothing => Action::Task(Vec::new()),
                            spaces::Task::GetSpaceInfo { slabel } => Action::Task(
                                self.get_space_info(slabel),
                            ),
                            spaces::Task::OpenSpace { slabel, amount, fee_rate } => Action::Task(
                                self.open_space_cmd(slabel, amount, fee_rate),
                            ),
                            spaces::Task::BidSpace { slabel, amount, fee_rate } => Action::Task(
                                self.bid_space_cmd(slabel, amount, fee_rate),
                            ),
                            spaces::Task::ClaimSpace { slabel, fee_rate } => Action::Task(
                                self.register_space_cmd(slabel, fee_rate),
                            ),
                            spaces::Task::TransferSpace { slabel, recipient, fee_rate } => Action::Task(
                                self.send_space_cmd(recipient, slabel, fee_rate),
                            ),
                            spaces::Task::ShowTransactions => Action::Task(
                                self.navigate_to(Route::Home),
                            ),
                        };
                        proof {
                            assert(spaces_act_rel(*old(self), *self, g_act, a));
                        }
                        a
                    }
                }
            }
            Message::MarketScreen(m) => {
                match m {
                    market::Message::BuyResult(Err(RemoteError::System { message })) => {
                        self.banner = Some(message);
                        Action::Task(Vec::new())
                    }
                    market::Message::SellResult(Err(RemoteError::System { message })) => {
                        self.banner = Some(message);
                        Action::Task(Vec::new())
                    }
                    other => {
                        let act = self.market_screen.update(other);
                        let ghost g_act = act;
                        let a = match act {
                            market::Action::Nothing => Action::Task(Vec::new()),
                            market::Action::Buy { listing, fee_rate } => Action::Task(
                                self.buy_space_cmd(listing, fee_rate),
                            ),
                            market::Action::Sell { slabel, price } => Action::Task(
                                self.sell_space_cmd(slabel, price),
                            ),
                            market::Action::WriteClipboard(s) => {
                                let c = vec![Command::WriteClipboard { text: s }];
                                proof {
                                    assert(cmd_specs(c@) =~= seq![cmd_spec(c@[0])]);
                                }
                                Action::Task(c)
                            }
                            market::Action::ShowTransactions => Action::Task(
                                self.navigate_to(Route::Home),
                            ),
                        };
                        proof {
                            assert(market_act_rel(*old(self), *self, g_act, a));
                        }
                        a
                    }
                }
            }
            Message::SignScreen(m) => {
                let ghost gm = m;
                let act = self.sign_screen.update(m);
                let ghost g_act = act;
                proof {
                    assert(sign::update_rel(old(self).sign_screen, gm, self.sign_screen, g_act));
                }
                let a = match act {
                    sign::Action::Nothing => Action::Task(Vec::new()),
                    sign::Action::FilePick => {
                        let c = vec![Command::PickFile];
                        proof {
                            assert(cmd_specs(c@) =~= seq![cmd_spec(c@[0])]);
                        }
                        Action::Task(c)
                    }
                    sign::Action::Sign { slabel, event } => Action::Task(
                        self.sign_event_cmd(slabel, event),
                    ),
                };
                a
            }
            Message::SettingsScreen(m) => {
                match m {
                    settings::Message::WalletCreated(Err(RemoteError::System { message })) => {
                        self.banner = Some(message);
                        Action::Task(Vec::new())
                    }
                    settings::Message::WalletFileImported(
                        Err(RemoteError::System { message }),
                    ) => {
                        self.banner = Some(message);
                        Action::Task(Vec::new())
                    }
                    other => {
                        let act = self.settings_screen.update(other);
                        let ghost g_act = act;
                        let a = match act {
                            settings::Action::Nothing => Action::Task(Vec::new()),
                            settings::Action::SetCurrentWallet(name) => {
                                let _ = self.wallets.set_current(name.as_str());
                                self.config.wallet = Some(name);
                                let cfg = self.config.snapshot();
                                let mut cmds = vec![Command::SaveConfig { config: cfg }];
                                let mut more = self.list_wallets();
                                let ghost first = cmds@;
                                let ghost second = more@;
                                cmds.append(&mut more);
                                proof {
                                    assert(cmds@ == first + second);
                                    lemma_cmd_specs_concat(first, second);
                                    assert(cmd_specs(first) =~= seq![CmdSpec::SaveConfig(self.config)]);
                                    assert(cmd_specs(cmds@) =~= seq![
                                        CmdSpec::SaveConfig(self.config),
                                        CmdSpec::ListWallets,
                                    ]);
                                }
                                Action::Task(cmds)
                            }
                            settings::Action::CreateWallet(name) => {
                                self.config.wallet = None;
                                self.wallets.unset_current();
                                let ghost nl = name@;
                                let mut cmds = vec![Command::CreateWallet { wallet: name }];
                                let mut more = self.list_wallets();
                                let ghost first = cmds@;
                                let ghost second = more@;
                                cmds.append(&mut more);
                                proof {
                                    assert(cmds@ == first + second);
                                    lemma_cmd_specs_concat(first, second);
                                    assert(cmd_specs(first) =~= seq![CmdSpec::CreateWallet(nl)]);
                                    assert(cmd_specs(cmds@) =~= seq![
                                        CmdSpec::CreateWallet(nl),
                                        CmdSpec::ListWallets,
                                    ]);
                                }
                                Action::Task(cmds)
                            }
                            settings::Action::ExportWallet(name) => {
                                let ghost nl = name@;
                                let c = vec![Command::ExportWallet { wallet: name }];
                                proof {
                                    assert(cmd_specs(c@) =~= seq![CmdSpec::ExportWallet(nl)]);
                                }
                                Action::Task(c)
                            }
                            settings::Action::FilePick => {
                                let c = vec![Command::PickFile];
                                proof {
                                    assert(cmd_specs(c@) =~= seq![CmdSpec::PickFile]);
                                }
                                Action::Task(c)
                            }
                            settings::Action::ImportWallet(contents) => {
                                self.config.wallet = None;
                                self.wallets.unset_current();
                                let ghost cl = contents@;
                                let mut cmds = vec![Command::ImportWallet { contents }];
                                let mut more = self.list_wallets();
                                let ghost first = cmds@;
                                let ghost second = more@;
                                cmds.append(&mut more);
                                proof {
                                    assert(cmds@ == first + second);
                                    lemma_cmd_specs_concat(first, second);
                                    assert(cmd_specs(first) =~= seq![CmdSpec::ImportWallet(cl)]);
                                    assert(cmd_specs(cmds@) =~= seq![
                                        CmdSpec::ImportWallet(cl),
                                        CmdSpec::ListWallets,
                                    ]);
                                }
                                Action::Task(cmds)
                            }
                            settings::Action::ResetBackend => Action::Return(self.config.snapshot()),
                        };
                        proof {
                            assert(settings_act_rel(*old(self), *self, g_act, a));
                        }
                        a
                    }
                }
            }
        }
    }
}

/// The ghost description of a task's command batch; a phase switch has
/// none.
pub open spec fn task_specs(a: Action) -> Seq<CmdSpec> {
    match a {
        Action::Task(v) => cmd_specs(v@),
        Action::Return(_) => Seq::empty(),
    }
}

/// Law: a tick never changes the state, so two ticks with no intervening
/// result messages issue the same fetches — fetch selection depends on
/// nothing but the documented state.
pub proof fn lemma_tick_idempotent(s1: State, s2: State, s3: State, a1: Action, a2: Action)
    requires
        update_rel(s1, Message::Tick, s2, a1),
        update_rel(s2, Message::Tick, s3, a2),
    ensures
        s2 == s1,
        s3 == s1,
        a1 is Task,
        a2 is Task,
        task_specs(a1) =~= task_specs(a2),
{
}

/// The message carries a business rejection from the remote service.
pub open spec fn carries_business(m: Message) -> bool {
    match m {
        Message::ServerInfo(Err(RemoteError::Business { .. })) => true,
        Message::ListWallets(Err(RemoteError::Business { .. })) => true,
        Message::WalletLoad(wr) => wr.result matches Err(RemoteError::Business { .. }),
        Message::WalletInfo(wr) => wr.result matches Err(RemoteError::Business { .. }),
        Message::WalletBalance(wr) => wr.result matches Err(RemoteError::Business { .. }),
        Message::WalletSpaces(wr) => wr.result matches Err(RemoteError::Business { .. }),
        Message::WalletTransactions(wr) => wr.result matches Err(RemoteError::Business { .. }),
        Message::WalletAddress(wr) => wr.result matches Err(RemoteError::Business { .. }),
        Message::SpaceInfo(Err(RemoteError::Business { .. })) => true,
        Message::HomeScreen(home::Message::BumpFeeResult(Err(RemoteError::Business { .. }))) => true,
        Message::SendScreen(send::Message::ClientResult(Err(RemoteError::Business { .. }))) => true,
        Message::SpacesScreen(
            spaces::Message::ClientResult(Err(RemoteError::Business { .. })),
        ) => true,
        Message::MarketScreen(market::Message::BuyResult(Err(RemoteError::Business { .. }))) => true,
        Message::MarketScreen(
            market::Message::SellResult(Err(RemoteError::Business { .. })),
        ) => true,
        Message::SettingsScreen(
            settings::Message::WalletCreated(Err(RemoteError::Business { .. })),
        ) => true,
        Message::SettingsScreen(
            settings::Message::WalletFileImported(Err(RemoteError::Business { .. })),
        ) => true,
        _ => false,
    }
}

/// The message carries a system fault from the remote service.
pub open spec fn carries_system(m: Message) -> bool {
    match m {
        Message::ServerInfo(Err(RemoteError::System { .. })) => true,
        Message::ListWallets(Err(RemoteError::System { .. })) => true,
        Message::WalletLoad(wr) => wr.result matches Err(RemoteError::System { .. }),
        Message::WalletInfo(wr) => wr.result matches Err(RemoteError::System { .. }),
        Message::WalletBalance(wr) => wr.result matches Err(RemoteError::System { .. }),
        Message::WalletSpaces(wr) => wr.result matches Err(RemoteError::System { .. }),
        Message::WalletTransactions(wr) => wr.result matches Err(RemoteError::System { .. }),
        Message::WalletAddress(wr) => wr.result matches Err(RemoteError::System { .. }),
        Message::SpaceInfo(Err(RemoteError::System { .. })) => true,
        Message::HomeScreen(home::Message::BumpFeeResult(Err(RemoteError::System { .. }))) => true,
        Message::SendScreen(send::Message::ClientResult(Err(RemoteError::System { .. }))) => true,
        Message::SpacesScreen(spaces::Message::ClientResult(Err(RemoteError::System { .. }))) => true,
        Message::MarketScreen(market::Message::BuyResult(Err(RemoteError::System { .. }))) => true,
        Message::MarketScreen(market::Message::SellResult(Err(RemoteError::System { .. }))) => true,
        Message::SettingsScreen(
            settings::Message::WalletCreated(Err(RemoteError::System { .. })),
        ) => true,
        Message::SettingsScreen(
            settings::Message::WalletFileImported(Err(RemoteError::System { .. })),
        ) => true,
        _ => false,
    }
}

/// Law: a business rejection never alters the global connectivity banner;
/// it stays on the screen that issued the request.
pub proof fn lemma_business_error_keeps_banner(pre: State, m: Message, post: State, a: Action)
    requires
        update_rel(pre, m, post, a),
        carries_business(m),
    ensures
        post.banner == pre.banner,
{
    match m {
        Message::HomeScreen(hm) => {
            let act = choose|act: home::Action|
                home::update_rel(pre.home_screen, hm, post.home_screen, act) && home_act_rel(
                    pre,
                    post,
                    act,
                    a,
                );
            assert(home_act_rel(pre, post, act, a));
        }
        Message::SendScreen(sm) => {
            let act = choose|act: send::Action|
                send::update_rel(pre.send_screen, sm, post.send_screen, act) && send_act_rel(
                    pre,
                    post,
                    act,
                    a,
                );
            assert(send_act_rel(pre, post, act, a));
        }
        Message::SpacesScreen(pm) => {
            let act = choose|act: spaces::Task|
                spaces::update_rel(pre.spaces_screen, pm, post.spaces_screen, act)
                    && spaces_act_rel(pre, post, act, a);
            assert(spaces_act_rel(pre, post, act, a));
        }
        Message::MarketScreen(mm) => {
            let act = choose|act: market::Action|
                market::update_rel(pre.market_screen, mm, post.market_screen, act)
                    && market_act_rel(pre, post, act, a);
            assert(market_act_rel(pre, post, act, a));
        }
        Message::SettingsScreen(tm) => {
            let act = choose|act: settings::Action|
                settings::update_rel(pre.settings_screen, tm, post.settings_screen, act)
                    && settings_act_rel(pre, post, act, a);
            assert(settings_act_rel(pre, post, act, a));
        }
        _ => {}
    }
}

/// Law: a system fault raises the global banner, leaves every screen's
/// local error line exactly as it was, and discards no cached projection
/// — the interface degrades to last known good data.
pub proof fn lemma_system_error_routing(pre: State, m: Message, post: State, a: Action)
    requires
        update_rel(pre, m, post, a),
        carries_system(m),
    ensures
        post.banner is Some,
        post.home_screen.error == pre.home_screen.error,
        post.send_screen.error == pre.send_screen.error,
        post.spaces_screen.error == pre.spaces_screen.error,
        post.market_screen.error == pre.market_screen.error,
        post.sign_screen.error == pre.sign_screen.error,
        post.settings_screen.error == pre.settings_screen.error,
        post.wallets == pre.wallets,
        post.spaces == pre.spaces,
{
}

/// The message carries a successful balance result for this label.
pub open spec fn balance_result_msg(m: Message, l: Seq<char>, b: u64) -> bool {
    m matches Message::WalletBalance(wr) && wr.label@ == l && wr.result == Ok::<
        u64,
        RemoteError,
    >(b)
}

/// Law: results are applied idempotently, keyed by the label they carry.
/// Of two balance results for the same tracked wallet, whichever is
/// applied last determines the cached value — regardless of the order in
/// which the calls were issued — and no other wallet's projection moves.
pub proof fn lemma_last_applied_result_wins(
    pre: State,
    mid: State,
    post: State,
    a1: Action,
    a2: Action,
    m1: Message,
    m2: Message,
    l: Seq<char>,
    b1: u64,
    b2: u64,
)
    requires
        balance_result_msg(m1, l, b1),
        balance_result_msg(m2, l, b2),
        pre.wallets.loaded(l),
        update_rel(pre, m1, mid, a1),
        update_rel(mid, m2, post, a2),
    ensures
        post.wallets@.dom().contains(l),
        post.wallets@[l] matches Some(d) && d.balance == b2,
        forall|k: Seq<char>|
            k != l && pre.wallets@.dom().contains(k) ==> post.wallets@.dom().contains(k)
                && post.wallets@[k] == pre.wallets@[k],
{
    assert(mid.wallets@ =~= pre.wallets@.insert(
        l,
        Some(with_balance(pre.wallets@[l]->0, b1)),
    ));
    assert(mid.wallets.loaded(l));
    assert(post.wallets@ =~= mid.wallets@.insert(
        l,
        Some(with_balance(mid.wallets@[l]->0, b2)),
    ));
}

} // verus!
