use akron_core::screen::{home, receive, send, spaces};
use akron_core::state::{Covenant, OutPoint, SpaceData, SpacesCollection};
use akron_core::types::AddressKind;

#[test]
fn send_submission_is_gated_on_parsing_fields() {
    let mut s = send::State::default();
    assert_eq!(s.update(send::Message::SendCoinsSubmit), send::Action::Nothing);

    let _ = s.update(send::Message::RecipientInput("@alice".to_string()));
    let _ = s.update(send::Message::AmountInput("1000".to_string()));
    let action = s.update(send::Message::SendCoinsSubmit);
    match action {
        send::Action::SendCoins { recipient, amount, fee_rate } => {
            assert_eq!(recipient, "@alice");
            assert_eq!(amount.to_sat(), 1000);
            assert!(fee_rate.is_none());
        }
        other => panic!("expected a coin send, got {:?}", other),
    }
}

#[test]
fn send_inputs_reject_gated_characters() {
    let mut s = send::State::default();
    let _ = s.update(send::Message::AmountInput("12x".to_string()));
    assert_eq!(s.amount, "");
    let _ = s.update(send::Message::AmountInput("12".to_string()));
    assert_eq!(s.amount, "12");
}

#[test]
fn receive_screen_toggles_the_enlarged_code() {
    let mut s = receive::State::default();
    let t = s.update(receive::Message::QrCodePress(AddressKind::Coin));
    assert_eq!(t, receive::Task::Nothing);
    assert_eq!(s, receive::State::QrCode(AddressKind::Coin));
    let t = s.update(receive::Message::CopyPress("bc1q".to_string()));
    assert_eq!(t, receive::Task::WriteClipboard("bc1q".to_string()));
    let _ = s.update(receive::Message::ClosePress);
    assert_eq!(s, receive::State::Home);
}

#[test]
fn home_scrolling_near_the_end_widens_the_history_window() {
    let mut s = home::State::default();
    assert_eq!(s.get_transactions_limit(), 10);
    // far from the end: nothing happens
    let a = s.update(home::Message::TxsListScrolled { permille: 500, count: 10 });
    assert_eq!(a, home::Action::Nothing);
    assert_eq!(s.get_transactions_limit(), 10);
    // near the end with a full window: ask for more
    let a = s.update(home::Message::TxsListScrolled { permille: 900, count: 10 });
    assert_eq!(a, home::Action::GetTransactions);
    assert_eq!(s.get_transactions_limit(), 19);
}

#[test]
fn bump_fee_needs_a_chosen_transaction_and_a_rate() {
    let mut s = home::State::default();
    assert_eq!(s.update(home::Message::BumpFeeSubmit), home::Action::Nothing);
    let _ = s.update(home::Message::BumpFeePress { txid: "aa".to_string() });
    // the empty rate means automatic, which a bump cannot use
    assert_eq!(s.update(home::Message::BumpFeeSubmit), home::Action::Nothing);
    let _ = s.update(home::Message::FeeRateInput("7".to_string()));
    match s.update(home::Message::BumpFeeSubmit) {
        home::Action::BumpFee { txid, fee_rate } => {
            assert_eq!(txid, "aa");
            assert_eq!(fee_rate.to_sat_per_vb(), 7);
        }
        other => panic!("expected a fee bump, got {:?}", other),
    }
}

#[test]
fn spaces_view_waits_for_a_completed_fetch_before_offering_open() {
    // an absent cache entry renders as loading; only the recorded
    // "known to not exist yet" outcome brings the open form up
    let mut screen = spaces::State::default();
    let _ = screen.update(spaces::Message::SpaceInput("sample".to_string()));
    let mut cache = SpacesCollection::new();
    let none: Vec<String> = Vec::new();

    let kind = screen.view_kind(&cache, 100, &none, &none);
    assert_eq!(kind, spaces::SpaceViewKind::Loading);

    cache.set("sample".to_string(), None);
    let kind = screen.view_kind(&cache, 100, &none, &none);
    assert_eq!(kind, spaces::SpaceViewKind::Open);
}

#[test]
fn spaces_view_tracks_the_auction_lifecycle() {
    let mut screen = spaces::State::default();
    let _ = screen.update(spaces::Message::SpaceInput("sample".to_string()));
    let mut cache = SpacesCollection::new();
    let winning = vec!["sample".to_string()];
    let none: Vec<String> = Vec::new();

    cache.set(
        "sample".to_string(),
        Some(SpaceData {
            outpoint: OutPoint { txid: "aa".to_string(), vout: 0 },
            covenant: Covenant::Bid { total_burned: 5000, claim_height: Some(120) },
        }),
    );
    // before the claim height: still an auction
    let kind = screen.view_kind(&cache, 100, &winning, &none);
    assert_eq!(
        kind,
        spaces::SpaceViewKind::Bid { claim_height: Some(120), total_burned: 5000, is_winning: true }
    );
    // at the claim height: the winner may claim
    let kind = screen.view_kind(&cache, 120, &winning, &none);
    assert_eq!(kind, spaces::SpaceViewKind::Claim { total_burned: 5000, is_winning: true });

    cache.set(
        "sample".to_string(),
        Some(SpaceData {
            outpoint: OutPoint { txid: "aa".to_string(), vout: 0 },
            covenant: Covenant::Transfer { expire_height: 300 },
        }),
    );
    let kind = screen.view_kind(&cache, 120, &none, &winning);
    assert_eq!(kind, spaces::SpaceViewKind::Registered { expire_height: 300, is_owned: true });
}

#[test]
fn spaces_view_rejects_invalid_names() {
    let mut screen = spaces::State::default();
    let _ = screen.update(spaces::Message::SpaceInput("a--b".to_string()));
    let cache = SpacesCollection::new();
    let none: Vec<String> = Vec::new();
    assert_eq!(screen.view_kind(&cache, 0, &none, &none), spaces::SpaceViewKind::Invalid);
}

#[test]
fn spaces_inputs_gate_submission() {
    let mut screen = spaces::State::default();
    let _ = screen.update(spaces::Message::SpaceInput("sample".to_string()));
    assert_eq!(screen.update(spaces::Message::OpenSubmit), spaces::Task::Nothing);
    let _ = screen.update(spaces::Message::AmountInput("2000".to_string()));
    match screen.update(spaces::Message::OpenSubmit) {
        spaces::Task::OpenSpace { slabel, amount, fee_rate } => {
            assert_eq!(slabel, "sample");
            assert_eq!(amount.to_sat(), 2000);
            assert!(fee_rate.is_none());
        }
        other => panic!("expected an open, got {:?}", other),
    }
}
