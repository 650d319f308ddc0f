use akron_core::client::{Command, RemoteError, WalletResult};
use akron_core::config::{Config, Network};
use akron_core::pages::main::{
    Action, Message, Route, Screen, ServerInfo, SpaceEntry, State, WalletInfoResult,
    WalletSpacesResult,
};
use akron_core::screen::{send, spaces};
use akron_core::state::{Covenant, OutPoint, SpaceData};
use akron_core::types::AddressKind;

fn config_with_wallet(wallet: Option<&str>) -> Config {
    Config {
        spaced_rpc_url: Some("http://127.0.0.1:7225".to_string()),
        network: Network::Mainnet,
        wallet: wallet.map(|w| w.to_string()),
    }
}

fn task(action: Action) -> Vec<Command> {
    match action {
        Action::Task(cmds) => cmds,
        Action::Return(_) => panic!("expected a command batch, not a phase switch"),
    }
}

/// Drives a fresh main page to the point where wallet `default` is
/// selected and loaded.
fn loaded_state() -> State {
    let (mut state, _boot) = State::run(config_with_wallet(Some("default")));
    let cmds = task(state.update(Message::ListWallets(Ok(vec!["default".to_string()]))));
    assert_eq!(cmds, vec![Command::LoadWallet { wallet: "default".to_string() }]);
    let _ = state.update(Message::WalletLoad(WalletResult {
        label: "default".to_string(),
        result: Ok(()),
    }));
    state
}

#[test]
fn startup_issues_the_two_bootstrap_fetches() {
    let (_state, boot) = State::run(config_with_wallet(None));
    assert_eq!(boot, vec![Command::GetServerInfo, Command::ListWallets]);
}

#[test]
fn listed_wallet_matching_config_is_loaded_and_home_follows() {
    // config selects `default`; the list confirms it; the reducer loads it,
    // then moves to the home screen and fetches what the screen shows
    let (mut state, _boot) = State::run(config_with_wallet(Some("default")));
    let cmds = task(state.update(Message::ListWallets(Ok(vec!["default".to_string()]))));
    assert_eq!(cmds, vec![Command::LoadWallet { wallet: "default".to_string() }]);

    let cmds = task(state.update(Message::WalletLoad(WalletResult {
        label: "default".to_string(),
        result: Ok(()),
    })));
    assert_eq!(state.screen, Screen::Home);
    assert_eq!(
        cmds,
        vec![
            Command::GetWalletInfo { wallet: "default".to_string() },
            Command::GetWalletBalance { wallet: "default".to_string() },
            Command::GetWalletSpaces { wallet: "default".to_string() },
            Command::GetWalletTransactions { wallet: "default".to_string(), count: 10 },
        ]
    );
}

#[test]
fn no_listed_wallet_leads_to_settings() {
    let (mut state, _boot) = State::run(config_with_wallet(None));
    let cmds = task(state.update(Message::ListWallets(Ok(vec![]))));
    assert_eq!(state.screen, Screen::Settings);
    assert!(cmds.is_empty());
}

#[test]
fn tick_issues_the_same_fetches_twice() {
    // no hidden counters: with no responses in between, two ticks ask for
    // exactly the same data
    let mut state = loaded_state();
    let first = task(state.update(Message::Tick));
    let second = task(state.update(Message::Tick));
    assert_eq!(first, second);
    assert_eq!(
        first,
        vec![
            Command::GetServerInfo,
            Command::GetWalletInfo { wallet: "default".to_string() },
            Command::GetWalletBalance { wallet: "default".to_string() },
            Command::GetWalletTransactions { wallet: "default".to_string(), count: 10 },
        ]
    );
}

#[test]
fn business_error_stays_on_the_sending_screen() {
    // a rejected send: the send screen shows the message, the global
    // banner stays clear, and the user stays on the send screen
    let mut state = loaded_state();
    let _ = state.update(Message::NavigateTo(Route::Send));
    assert_eq!(state.screen, Screen::Send);

    let cmds = task(state.update(Message::SendScreen(send::Message::ClientResult(Err(
        RemoteError::Business { code: -1, message: "insufficient funds".to_string() },
    )))));
    assert!(cmds.is_empty());
    assert_eq!(state.screen, Screen::Send);
    assert_eq!(state.send_screen.error.as_deref(), Some("insufficient funds"));
    assert!(state.banner.is_none());
}

#[test]
fn system_error_raises_the_banner_and_spares_screen_errors() {
    let mut state = loaded_state();
    let _ = state.update(Message::NavigateTo(Route::Send));
    let _ = state.update(Message::SendScreen(send::Message::ClientResult(Err(
        RemoteError::System { message: "connection refused".to_string() },
    ))));
    assert_eq!(state.banner.as_deref(), Some("connection refused"));
    assert!(state.send_screen.error.is_none());
}

#[test]
fn successful_result_clears_the_banner() {
    let mut state = loaded_state();
    let _ = state.update(Message::ServerInfo(Err(RemoteError::System {
        message: "unreachable".to_string(),
    })));
    assert!(state.banner.is_some());
    let _ = state.update(Message::ServerInfo(Ok(ServerInfo {
        network: "mainnet".to_string(),
        tip_height: 800,
        chain_blocks: 800,
        chain_headers: 800,
    })));
    assert!(state.banner.is_none());
    assert_eq!(state.tip_height, 800);
}

#[test]
fn navigating_to_the_current_screen_resets_inputs_but_not_caches() {
    // reset versus refetch: repeated navigation clears the transient
    // inputs of the screen, while cached remote data stays
    let mut state = loaded_state();
    let _ = state.update(Message::NavigateTo(Route::Spaces));
    let _ = state.update(Message::SpacesScreen(spaces::Message::SpaceInput(
        "sample".to_string(),
    )));
    assert_eq!(state.spaces_screen.space, "sample");
    let _ = state.update(Message::SpaceInfo(Ok(("sample".to_string(), None))));

    let _ = state.update(Message::NavigateTo(Route::Spaces));
    assert_eq!(state.spaces_screen.space, "");
    // the cached fetch outcome survived the reset
    assert!(state.spaces.get_covenant("sample").is_some());
}

#[test]
fn results_are_applied_by_carried_label_not_by_selection() {
    // a slow response for a pruned wallet cannot overwrite the current one
    let mut state = loaded_state();
    let _ = state.update(Message::WalletBalance(WalletResult {
        label: "ghost".to_string(),
        result: Ok(12345),
    }));
    let entry = state.wallets.get_current().expect("default stays selected");
    assert_eq!(entry.state.balance, 0);

    let _ = state.update(Message::WalletBalance(WalletResult {
        label: "default".to_string(),
        result: Ok(777),
    }));
    assert_eq!(state.wallets.get_current().unwrap().state.balance, 777);
}

#[test]
fn wallet_spaces_fill_both_caches() {
    let mut state = loaded_state();
    let owned = vec![SpaceEntry {
        slabel: "mine".to_string(),
        space: SpaceData {
            outpoint: OutPoint { txid: "ab".to_string(), vout: 0 },
            covenant: Covenant::Transfer { expire_height: 900 },
        },
    }];
    let _ = state.update(Message::WalletSpaces(WalletResult {
        label: "default".to_string(),
        result: Ok(WalletSpacesResult { winning: vec![], outbid: vec![], owned }),
    }));
    let entry = state.wallets.get_current().unwrap();
    assert_eq!(entry.state.owned_spaces, vec!["mine".to_string()]);
    match state.spaces.get_covenant("mine") {
        Some(Some(Covenant::Transfer { expire_height })) => assert_eq!(*expire_height, 900),
        _ => panic!("expected the owned space to be cached as registered"),
    }
}

#[test]
fn wallet_info_and_address_update_the_projection() {
    let mut state = loaded_state();
    let _ = state.update(Message::WalletInfo(WalletResult {
        label: "default".to_string(),
        result: Ok(WalletInfoResult { sync_height: 750, synced: true }),
    }));
    let _ = state.update(Message::WalletAddress(WalletResult {
        label: "default".to_string(),
        result: Ok((AddressKind::Coin, "bc1qaddr".to_string())),
    }));
    let entry = state.wallets.get_current().unwrap();
    assert_eq!(entry.state.sync_height, 750);
    assert_eq!(entry.state.coin_address.as_ref().unwrap().as_str(), "bc1qaddr");
}

#[test]
fn poll_interval_adapts_to_sync_state() {
    let mut state = loaded_state();
    // no tip known yet: poll fast
    assert_eq!(state.poll_interval_secs(), 5);
    let _ = state.update(Message::ServerInfo(Ok(ServerInfo {
        network: "mainnet".to_string(),
        tip_height: 800,
        chain_blocks: 800,
        chain_headers: 800,
    })));
    // tip known but the wallet lags: still fast
    assert_eq!(state.poll_interval_secs(), 5);
    let _ = state.update(Message::WalletInfo(WalletResult {
        label: "default".to_string(),
        result: Ok(WalletInfoResult { sync_height: 800, synced: true }),
    }));
    // caught up: poll slowly
    assert_eq!(state.poll_interval_secs(), 30);
}

#[test]
fn navigation_issues_the_fetches_the_screen_needs() {
    let mut state = loaded_state();
    let cmds = task(state.update(Message::NavigateTo(Route::Receive)));
    assert_eq!(
        cmds,
        vec![
            Command::GetWalletAddress { wallet: "default".to_string(), kind: AddressKind::Coin },
            Command::GetWalletAddress { wallet: "default".to_string(), kind: AddressKind::Space },
        ]
    );
    let cmds = task(state.update(Message::NavigateTo(Route::Space("sample".to_string()))));
    assert_eq!(state.screen, Screen::Spaces);
    assert_eq!(state.spaces_screen.space, "sample");
    assert_eq!(cmds, vec![Command::GetSpaceInfo { slabel: "sample".to_string() }]);
}
