use akron_core::client::{classify_error, Command, RemoteError};
use akron_core::config::{Config, Network};
use akron_core::pages::main::{Action, Message, State};
use akron_core::screen::{market, settings, sign};

#[test]
fn classification_follows_the_error_code() {
    match classify_error(Some(-32010), "bad request".to_string()) {
        RemoteError::Business { code, message } => {
            assert_eq!(code, -32010);
            assert_eq!(message, "bad request");
        }
        other => panic!("expected a business rejection, got {:?}", other),
    }
    match classify_error(None, "timed out".to_string()) {
        RemoteError::System { message } => assert_eq!(message, "timed out"),
        other => panic!("expected a system fault, got {:?}", other),
    }
}

#[test]
fn market_buy_needs_a_listing_that_deserializes() {
    let mut s = market::State::default();
    let _ = s.update(market::Message::ListingInput("not a listing".to_string()));
    assert_eq!(s.update(market::Message::BuySubmit), market::Action::Nothing);

    let sig = "00".repeat(64);
    let text = format!(
        "{{\"subject\":\"@bitcoin\",\"price\":1000,\"seller\":\"bc1qseller\",\"signature\":\"{}\"}}",
        sig
    );
    let _ = s.update(market::Message::ListingInput(text.clone()));
    match s.update(market::Message::BuySubmit) {
        market::Action::Buy { listing, fee_rate } => {
            assert_eq!(listing, text);
            assert!(fee_rate.is_none());
        }
        other => panic!("expected a buy, got {:?}", other),
    }
}

#[test]
fn market_sell_needs_a_space_and_a_price() {
    let mut s = market::State::default();
    assert_eq!(s.update(market::Message::SellSubmit), market::Action::Nothing);
    let _ = s.update(market::Message::SLabelSelect("mine".to_string()));
    let _ = s.update(market::Message::PriceInput("5000".to_string()));
    match s.update(market::Message::SellSubmit) {
        market::Action::Sell { slabel, price } => {
            assert_eq!(slabel, "mine");
            assert_eq!(price.to_sat(), 5000);
        }
        other => panic!("expected a sale, got {:?}", other),
    }
}

#[test]
fn market_keeps_the_produced_listing_for_copying() {
    let mut s = market::State::default();
    assert_eq!(s.update(market::Message::CopyListingPress), market::Action::Nothing);
    let _ = s.update(market::Message::SellResult(Ok("{\"price\":1}".to_string())));
    assert_eq!(
        s.update(market::Message::CopyListingPress),
        market::Action::WriteClipboard("{\"price\":1}".to_string())
    );
}

#[test]
fn market_shows_business_rejections_locally() {
    let mut s = market::State::default();
    let _ = s.update(market::Message::BuyResult(Err(RemoteError::Business {
        code: -1,
        message: "listing expired".to_string(),
    })));
    assert_eq!(s.error.as_deref(), Some("listing expired"));
    // a system fault is the reducer's to report, not the screen's
    let _ = s.update(market::Message::SellResult(Err(RemoteError::System {
        message: "unreachable".to_string(),
    })));
    assert!(s.error.is_none());
}

#[test]
fn sign_flow_loads_then_signs() {
    let mut s = sign::State::default();
    assert_eq!(s.update(sign::Message::SignSubmit), sign::Action::Nothing);
    assert_eq!(s.update(sign::Message::FilePickPress), sign::Action::FilePick);
    let _ = s.update(sign::Message::EventFileLoaded(Ok(Some((
        "event.json".to_string(),
        "{\"kind\":1}".to_string(),
    )))));
    let _ = s.update(sign::Message::SLabelSelect("mine".to_string()));
    match s.update(sign::Message::SignSubmit) {
        sign::Action::Sign { slabel, event } => {
            assert_eq!(slabel, "mine");
            assert_eq!(event, "{\"kind\":1}");
        }
        other => panic!("expected a signing, got {:?}", other),
    }
    let _ = s.update(sign::Message::EventFileSaved(Err("disk full".to_string())));
    assert_eq!(s.error.as_deref(), Some("disk full"));
}

#[test]
fn settings_actions_map_one_to_one() {
    let mut s = settings::State::default();
    assert_eq!(
        s.update(settings::Message::WalletSelect("w1".to_string())),
        settings::Action::SetCurrentWallet("w1".to_string())
    );
    assert_eq!(
        s.update(settings::Message::CreateWalletPress("w2".to_string())),
        settings::Action::CreateWallet("w2".to_string())
    );
    assert_eq!(s.update(settings::Message::ImportWalletPress), settings::Action::FilePick);
    assert_eq!(s.update(settings::Message::ResetBackendPress), settings::Action::ResetBackend);
}

#[test]
fn selecting_a_wallet_persists_the_choice_and_relists() {
    let config = Config {
        spaced_rpc_url: None,
        network: Network::Regtest,
        wallet: None,
    };
    let (mut state, _boot) = State::run(config);
    let _ = state.update(Message::ListWallets(Ok(vec!["w1".to_string(), "w2".to_string()])));

    let action = state.update(Message::SettingsScreen(settings::Message::WalletSelect(
        "w2".to_string(),
    )));
    match action {
        Action::Task(cmds) => {
            assert_eq!(cmds.len(), 2);
            match &cmds[0] {
                Command::SaveConfig { config } => {
                    assert_eq!(config.wallet.as_deref(), Some("w2"));
                }
                other => panic!("expected the configuration write, got {:?}", other),
            }
            assert_eq!(cmds[1], Command::ListWallets);
        }
        Action::Return(_) => panic!("expected commands, not a phase switch"),
    }
    assert_eq!(state.wallets.get_current().unwrap().label, "w2");
}

#[test]
fn resetting_the_backend_returns_to_setup() {
    let config = Config {
        spaced_rpc_url: Some("http://127.0.0.1:7225".to_string()),
        network: Network::Mainnet,
        wallet: Some("default".to_string()),
    };
    let (mut state, _boot) = State::run(config.clone());
    match state.update(Message::SettingsScreen(settings::Message::ResetBackendPress)) {
        Action::Return(cfg) => assert_eq!(cfg, config),
        Action::Task(_) => panic!("expected the switch back to setup"),
    }
}
