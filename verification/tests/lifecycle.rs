use akron_core::app;
use akron_core::client::{Command, RemoteError};
use akron_core::config::{Config, Network};
use akron_core::pages::main::ServerInfo;
use akron_core::pages::setup;

fn fresh_config() -> Config {
    Config { spaced_rpc_url: None, network: Network::Mainnet, wallet: None }
}

fn info(network: &str) -> ServerInfo {
    ServerInfo {
        network: network.to_string(),
        tip_height: 100,
        chain_blocks: 100,
        chain_headers: 100,
    }
}

#[test]
fn connect_needs_an_endpoint() {
    let (mut s, _msg) = setup::State::run(fresh_config(), false);
    match s.update(setup::Message::Connect) {
        setup::Action::Task(cmds) => assert!(cmds.is_empty()),
        other => panic!("expected no command, got {:?}", other),
    }
    let _ = s.update(setup::Message::UrlToggle(true));
    assert_eq!(s.rpc_url.as_deref(), Some("http://127.0.0.1:7225"));
    match s.update(setup::Message::Connect) {
        setup::Action::Task(cmds) => {
            assert_eq!(cmds, vec![Command::Connect { url: "http://127.0.0.1:7225".to_string() }]);
        }
        other => panic!("expected a connection attempt, got {:?}", other),
    }
}

#[test]
fn wrong_network_is_refused() {
    let (mut s, _msg) = setup::State::run(fresh_config(), false);
    let _ = s.update(setup::Message::UrlToggle(true));
    let _ = s.update(setup::Message::Connect);
    let a = s.update(setup::Message::ConnectResult(Ok(info("testnet4"))));
    assert_eq!(a, setup::Action::Task(vec![]));
    assert_eq!(s.error.as_deref(), Some("wrong network"));
}

#[test]
fn handshake_with_remembered_wallet_finishes_setup() {
    let mut config = fresh_config();
    config.spaced_rpc_url = Some("http://127.0.0.1:7225".to_string());
    config.wallet = Some("default".to_string());
    let (mut s, msg) = setup::State::run(config.clone(), true);
    assert!(matches!(msg, Some(setup::Message::Connect)));
    let _ = s.update(setup::Message::Connect);
    match s.update(setup::Message::ConnectResult(Ok(info("mainnet")))) {
        setup::Action::Return(cfg) => assert_eq!(cfg, config),
        other => panic!("expected the switch to the main phase, got {:?}", other),
    }
}

#[test]
fn a_listed_default_wallet_is_adopted() {
    let mut config = fresh_config();
    config.spaced_rpc_url = Some("http://127.0.0.1:7225".to_string());
    let (mut s, _msg) = setup::State::run(config, false);
    let _ = s.update(setup::Message::Connect);
    match s.update(setup::Message::ConnectResult(Ok(info("mainnet")))) {
        setup::Action::Task(cmds) => assert_eq!(cmds, vec![Command::ListWallets]),
        other => panic!("expected a wallet listing, got {:?}", other),
    }
    match s.update(setup::Message::ListWalletsResult(Ok(vec!["default".to_string()]))) {
        setup::Action::Return(cfg) => assert_eq!(cfg.wallet.as_deref(), Some("default")),
        other => panic!("expected the switch to the main phase, got {:?}", other),
    }
}

#[test]
fn an_empty_listing_offers_create_and_import() {
    let mut config = fresh_config();
    config.spaced_rpc_url = Some("http://127.0.0.1:7225".to_string());
    let (mut s, _msg) = setup::State::run(config, false);
    let _ = s.update(setup::Message::Connect);
    let _ = s.update(setup::Message::ConnectResult(Ok(info("mainnet"))));
    let _ = s.update(setup::Message::ListWalletsResult(Ok(vec![])));
    assert!(s.connected);
    match s.update(setup::Message::CreateWallet) {
        setup::Action::Task(cmds) => {
            assert_eq!(cmds, vec![Command::CreateWallet { wallet: "default".to_string() }]);
        }
        other => panic!("expected a wallet creation, got {:?}", other),
    }
}

#[test]
fn remote_failure_shows_on_the_setup_page() {
    let (mut s, _msg) = setup::State::run(fresh_config(), false);
    let _ = s.update(setup::Message::ConnectResult(Err(RemoteError::System {
        message: "refused".to_string(),
    })));
    assert_eq!(s.error.as_deref(), Some("refused"));
    assert!(!s.has_client);
}

#[test]
fn the_lifecycle_moves_from_setup_to_main_and_back() {
    let mut config = fresh_config();
    config.spaced_rpc_url = Some("http://127.0.0.1:7225".to_string());
    config.wallet = Some("default".to_string());

    let (state, _msg) = app::State::run(config.clone(), false);
    let (state, _cmds) = state.update(app::Message::Setup(setup::Message::Connect));
    let (state, cmds) = state.update(app::Message::Setup(setup::Message::ConnectResult(Ok(info(
        "mainnet",
    )))));
    assert!(matches!(state, app::State::Main(_)));
    assert_eq!(
        cmds,
        vec![
            Command::SaveConfig { config: config.clone() },
            Command::GetServerInfo,
            Command::ListWallets,
        ]
    );

    // a message for the wrong phase is dropped
    let (state, cmds) = state.update(app::Message::Setup(setup::Message::Connect));
    assert!(matches!(state, app::State::Main(_)));
    assert!(cmds.is_empty());
}
