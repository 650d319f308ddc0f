use akron_core::state::{
    contains_label, AddressData, Covenant, OutPoint, SpaceData, SpacesCollection, TxInfo,
    WalletsCollection,
};
use akron_core::types::AddressKind;

fn names(labels: &[&str]) -> Vec<String> {
    labels.iter().map(|l| l.to_string()).collect()
}

#[test]
fn set_wallets_tracks_the_authoritative_list() {
    let mut w = WalletsCollection::new();
    w.set_wallets(&names(&["alpha", "beta"]));
    let listed = w.get_wallets();
    assert!(contains_label(&listed, "alpha"));
    assert!(contains_label(&listed, "beta"));
    assert_eq!(listed.len(), 2);
}

#[test]
fn set_wallets_prunes_labels_no_longer_listed() {
    // the prune invariant: after set_wallets runs, a label absent from the
    // latest list is gone from the cache
    let mut w = WalletsCollection::new();
    w.set_wallets(&names(&["alpha", "beta"]));
    assert!(w.set_current("alpha"));
    w.set_balance("alpha", 500);
    w.set_wallets(&names(&["beta"]));
    let listed = w.get_wallets();
    assert!(!contains_label(&listed, "alpha"));
    assert!(contains_label(&listed, "beta"));
    // the selection died with its label
    assert!(w.get_current().is_none());
}

#[test]
fn set_wallets_keeps_cached_projections_of_surviving_labels() {
    let mut w = WalletsCollection::new();
    w.set_wallets(&names(&["alpha", "beta"]));
    assert!(w.set_current("alpha"));
    w.set_balance("alpha", 500);
    w.set_wallets(&names(&["alpha"]));
    let entry = w.get_current().expect("alpha survived the new list");
    assert_eq!(entry.label, "alpha");
    assert_eq!(entry.state.balance, 500);
}

#[test]
fn selecting_an_unknown_wallet_fails() {
    let mut w = WalletsCollection::new();
    w.set_wallets(&names(&["alpha"]));
    assert!(!w.set_current("ghost"));
    assert!(w.get_current().is_none());
}

#[test]
fn a_first_selection_starts_from_an_empty_projection() {
    let mut w = WalletsCollection::new();
    w.set_wallets(&names(&["alpha"]));
    assert!(w.set_current("alpha"));
    let entry = w.get_current().unwrap();
    assert_eq!(entry.state.balance, 0);
    assert!(entry.state.coin_address.is_none());
    assert!(entry.state.transactions.is_empty());
}

#[test]
fn writes_to_untracked_labels_are_dropped() {
    let mut w = WalletsCollection::new();
    w.set_wallets(&names(&["alpha"]));
    assert!(w.set_current("alpha"));
    w.set_balance("ghost", 999);
    assert_eq!(w.get_current().unwrap().state.balance, 0);
}

#[test]
fn the_last_applied_write_wins_per_field() {
    // out-of-order completion: the cache holds the most recently applied
    // value of each field, and writes to different fields are independent
    let mut w = WalletsCollection::new();
    w.set_wallets(&names(&["alpha"]));
    assert!(w.set_current("alpha"));
    w.set_balance("alpha", 100);
    w.set_balance("alpha", 50);
    w.set_transactions(
        "alpha",
        vec![TxInfo {
            txid: "aa".to_string(),
            block_height: Some(7),
            sent: 1,
            received: 2,
            fee: None,
        }],
    );
    let entry = w.get_current().unwrap();
    assert_eq!(entry.state.balance, 50);
    assert_eq!(entry.state.transactions.len(), 1);
    assert_eq!(entry.state.transactions[0].txid, "aa");
}

#[test]
fn writes_to_different_labels_are_independent() {
    let mut w = WalletsCollection::new();
    w.set_wallets(&names(&["alpha", "beta"]));
    assert!(w.set_current("alpha"));
    w.set_balance("alpha", 11);
    assert!(w.set_current("beta"));
    w.set_balance("beta", 22);
    assert_eq!(w.get_current().unwrap().state.balance, 22);
    assert!(w.set_current("alpha"));
    assert_eq!(w.get_current().unwrap().state.balance, 11);
}

#[test]
fn addresses_are_stored_by_kind() {
    let mut w = WalletsCollection::new();
    w.set_wallets(&names(&["alpha"]));
    assert!(w.set_current("alpha"));
    w.set_address("alpha", AddressKind::Coin, AddressData::new("bc1qcoin".to_string()));
    w.set_address("alpha", AddressKind::Space, AddressData::new("bc1qspace".to_string()));
    let entry = w.get_current().unwrap();
    assert_eq!(entry.state.coin_address.as_ref().unwrap().as_str(), "bc1qcoin");
    assert_eq!(entry.state.space_address.as_ref().unwrap().as_str(), "bc1qspace");
}

#[test]
fn space_cache_distinguishes_unknown_from_known_absent() {
    let mut s = SpacesCollection::new();
    // never fetched: no entry at all
    assert!(s.get("sample").is_none());
    assert!(s.get_covenant("sample").is_none());
    // fetched and known to not exist yet
    s.set("sample".to_string(), None);
    let inner = s.get_covenant("sample").expect("entry exists now");
    assert!(inner.is_none());
}

#[test]
fn space_cache_returns_covenant_and_outpoint() {
    let mut s = SpacesCollection::new();
    s.set(
        "sample".to_string(),
        Some(SpaceData {
            outpoint: OutPoint { txid: "ff".to_string(), vout: 1 },
            covenant: Covenant::Transfer { expire_height: 1000 },
        }),
    );
    match s.get_covenant("sample") {
        Some(Some(Covenant::Transfer { expire_height })) => assert_eq!(*expire_height, 1000),
        _ => panic!("expected a registered covenant"),
    }
    let op = s.get_outpoint("sample").expect("existing space has an outpoint");
    assert_eq!(op.txid, "ff");
    assert_eq!(op.vout, 1);
}
