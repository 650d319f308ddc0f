//! The reducer's entity caches: the wallet collection and the space
//! collection, each a keyed store mutated only by the reducer, and the
//! projections they hold.

use vstd::prelude::*;
use vstd::string::*;

use crate::label_map::LabelMap;
use crate::types::AddressKind;

verus! {

/// The transaction output an on-chain space currently lives in.
#[derive(Debug)]
pub struct OutPoint {
    pub txid: String,
    pub vout: u32,
}

/// The client-held view of a space's on-chain covenant.
#[derive(Debug)]
pub enum Covenant {
    /// The space is under auction.
    Bid { total_burned: u64, claim_height: Option<u32> },
    /// The space is registered until the expiry height.
    Transfer { expire_height: u32 },
    /// The space is locked and cannot be claimed.
    Reserved,
}

/// What the space cache stores for one fetched space.
#[derive(Debug)]
pub struct SpaceData {
    pub outpoint: OutPoint,
    pub covenant: Covenant,
}

/// A receive address together with the text a scannable code would carry.
pub struct AddressData {
    text: String,
}

impl AddressData {
    pub closed spec fn spec_text(self) -> Seq<char> {
        self.text@
    }

    pub fn new(text: String) -> (r: AddressData)
        ensures
            r.spec_text() == text@,
    {
        AddressData { text }
    }

    pub fn as_str(&self) -> (r: &str)
        ensures
            r@ == self.spec_text(),
    {
        self.text.as_str()
    }
}

/// One row of a wallet's transaction history.
pub struct TxInfo {
    pub txid: String,
    pub block_height: Option<u32>,
    pub sent: u64,
    pub received: u64,
    pub fee: Option<u64>,
}

/// The cached projection of one wallet's remote state.  Fields are
/// overwritten independently by the matching result messages; a failed
/// fetch leaves the prior value untouched.
pub struct WalletData {
    pub sync_height: u32,
    pub synced: bool,
    pub balance: u64,
    pub coin_address: Option<AddressData>,
    pub space_address: Option<AddressData>,
    pub winning_spaces: Vec<String>,
    pub outbid_spaces: Vec<String>,
    pub owned_spaces: Vec<String>,
    pub transactions: Vec<TxInfo>,
}

/// A projection as it is first created, before any fetch has completed.
pub open spec fn wallet_data_empty(d: WalletData) -> bool {
    &&& d.sync_height == 0
    &&& !d.synced
    &&& d.balance == 0
    &&& d.coin_address is None
    &&& d.space_address is None
    &&& d.winning_spaces@.len() == 0
    &&& d.outbid_spaces@.len() == 0
    &&& d.owned_spaces@.len() == 0
    &&& d.transactions@.len() == 0
}

impl Default for WalletData {
    fn default() -> (d: WalletData)
        ensures
            wallet_data_empty(d),
    {
        WalletData {
            sync_height: 0,
            synced: false,
            balance: 0,
            coin_address: None,
            space_address: None,
            winning_spaces: Vec::new(),
            outbid_spaces: Vec::new(),
            owned_spaces: Vec::new(),
            transactions: Vec::new(),
        }
    }
}

impl WalletData {
    pub fn is_synced(&self) -> (r: bool)
        ensures
            r == self.synced,
    {
        self.synced
    }
}

pub open spec fn with_sync(d: WalletData, height: u32, synced: bool) -> WalletData {
    WalletData {
        sync_height: height,
        synced,
        balance: d.balance,
        coin_address: d.coin_address,
        space_address: d.space_address,
        winning_spaces: d.winning_spaces,
        outbid_spaces: d.outbid_spaces,
        owned_spaces: d.owned_spaces,
        transactions: d.transactions,
    }
}

pub open spec fn with_balance(d: WalletData, balance: u64) -> WalletData {
    WalletData {
        sync_height: d.sync_height,
        synced: d.synced,
        balance,
        coin_address: d.coin_address,
        space_address: d.space_address,
        winning_spaces: d.winning_spaces,
        outbid_spaces: d.outbid_spaces,
        owned_spaces: d.owned_spaces,
        transactions: d.transactions,
    }
}

pub open spec fn with_address(d: WalletData, kind: AddressKind, addr: AddressData) -> WalletData {
    WalletData {
        sync_height: d.sync_height,
        synced: d.synced,
        balance: d.balance,
        coin_address: if kind is Coin {
            Some(addr)
        } else {
            d.coin_address
        },
        space_address: if kind is Space {
            Some(addr)
        } else {
            d.space_address
        },
        winning_spaces: d.winning_spaces,
        outbid_spaces: d.outbid_spaces,
        owned_spaces: d.owned_spaces,
        transactions: d.transactions,
    }
}

pub open spec fn with_spaces(
    d: WalletData,
    winning: Vec<String>,
    outbid: Vec<String>,
    owned: Vec<String>,
) -> WalletData {
    WalletData {
        sync_height: d.sync_height,
        synced: d.synced,
        balance: d.balance,
        coin_address: d.coin_address,
        space_address: d.space_address,
        winning_spaces: winning,
        outbid_spaces: outbid,
        owned_spaces: owned,
        transactions: d.transactions,
    }
}

pub open spec fn with_transactions(d: WalletData, transactions: Vec<TxInfo>) -> WalletData {
    WalletData {
        sync_height: d.sync_height,
        synced: d.synced,
        balance: d.balance,
        coin_address: d.coin_address,
        space_address: d.space_address,
        winning_spaces: d.winning_spaces,
        outbid_spaces: d.outbid_spaces,
        owned_spaces: d.owned_spaces,
        transactions,
    }
}

/// Whether a list of names holds this label text.
pub open spec fn labels_contain(names: Seq<String>, l: Seq<char>) -> bool {
    exists|j: int| 0 <= j < names.len() && (#[trigger] names[j])@ == l
}

/// Searches a list of names for a label.
pub fn contains_label(names: &Vec<String>, l: &str) -> (r: bool)
    ensures
        r == labels_contain(names@, l@),
{
    let n = names.len();
    let mut k: usize = 0;
    while k < n
        invariant
            n == names@.len(),
            k <= n,
            forall|j: int| 0 <= j < k ==> (#[trigger] names@[j])@ != l@,
        decreases n - k,
    {
        if crate::label_map::str_eq(names[k].as_str(), l) {
            return true;
        }
        k += 1;
    }
    false
}

/// The set of label texts a list of names covers.
pub open spec fn labels_of(names: Seq<String>) -> Set<Seq<char>> {
    Set::new(|l: Seq<char>| exists|j: int| 0 <= j < names.len() && (#[trigger] names[j])@ == l)
}

/// Applying a later write to the same label overwrites an earlier one:
/// whatever order result messages for one label are applied in, the cache
/// ends up holding the most recently applied value.
pub proof fn lemma_last_write_wins<T>(m: Map<Seq<char>, T>, l: Seq<char>, v1: T, v2: T)
    ensures
        m.insert(l, v1).insert(l, v2) =~= m.insert(l, v2),
{
}

/// Writes to different labels commute: result messages for different
/// wallets or spaces may complete in any order without changing the final
/// contents of the cache.
pub proof fn lemma_distinct_writes_commute<T>(
    m: Map<Seq<char>, T>,
    l1: Seq<char>,
    v1: T,
    l2: Seq<char>,
    v2: T,
)
    requires
        l1 != l2,
    ensures
        m.insert(l1, v1).insert(l2, v2) =~= m.insert(l2, v2).insert(l1, v1),
{
}

/// The space cache: label text to `Option<SpaceData>`, where `None` means
/// fetched and known not to exist yet, and an absent entry means never
/// fetched or still in flight.
pub struct SpacesCollection {
    spaces: LabelMap<Option<SpaceData>>,
}

impl SpacesCollection {
    pub closed spec fn view(self) -> Map<Seq<char>, Option<SpaceData>> {
        self.spaces@
    }

    pub closed spec fn wf(self) -> bool {
        self.spaces.wf()
    }

    pub fn new() -> (r: SpacesCollection)
        ensures
            r.wf(),
            r@ =~= Map::<Seq<char>, Option<SpaceData>>::empty(),
    {
        SpacesCollection { spaces: LabelMap::new() }
    }

    /// Records the outcome of a completed fetch for a space.
    pub fn set(&mut self, slabel: String, out: Option<SpaceData>)
        requires
            old(self).wf(),
        ensures
            final(self).wf(),
            final(self)@ =~= old(self)@.insert(slabel@, out),
    {
        self.spaces.set(slabel, out);
    }

    /// Reads a cached entry; `None` means the space was never fetched.
    pub fn get(&self, slabel: &str) -> (r: Option<&Option<SpaceData>>)
        requires
            self.wf(),
        ensures
            match r {
                Some(v) => self@.dom().contains(slabel@) && *v == self@[slabel@],
                None => !self@.dom().contains(slabel@),
            },
    {
        self.spaces.get(slabel)
    }

    /// The outpoint of a space known to exist on chain.
    pub fn get_outpoint(&self, slabel: &str) -> (r: Option<&OutPoint>)
        requires
            self.wf(),
        ensures
            match r {
                Some(p) => self@.dom().contains(slabel@) && (self@[slabel@] matches Some(sd)
                    && *p == sd.outpoint),
                None => !self@.dom().contains(slabel@) || self@[slabel@] is None,
            },
    {
        match self.spaces.get(slabel) {
            Some(v) => match v {
                Some(sd) => Some(&sd.outpoint),
                None => None,
            },
            None => None,
        }
    }

    /// The covenant of a cached space: the outer option distinguishes a
    /// missing entry, the inner a space that is not claimed yet.
    pub fn get_covenant(&self, slabel: &str) -> (r: Option<Option<&Covenant>>)
        requires
            self.wf(),
        ensures
            match r {
                Some(inner) => self@.dom().contains(slabel@) && (match inner {
                    Some(c) => self@[slabel@] matches Some(sd) && *c == sd.covenant,
                    None => self@[slabel@] is None,
                }),
                None => !self@.dom().contains(slabel@),
            },
    {
        match self.spaces.get(slabel) {
            Some(v) => match v {
                Some(sd) => Some(Some(&sd.covenant)),
                None => Some(None),
            },
            None => None,
        }
    }
}

/// A borrowed view of the currently selected wallet.
pub struct WalletEntry<'a> {
    pub label: &'a String,
    pub state: &'a WalletData,
}

/// The wallet cache: the set of known wallet labels, which one is current,
/// and the cached projection of each.  The current label, if set, always
/// has a loaded projection.
pub struct WalletsCollection {
    current: Option<String>,
    wallets: LabelMap<Option<WalletData>>,
}

impl WalletsCollection {
    pub closed spec fn view(self) -> Map<Seq<char>, Option<WalletData>> {
        self.wallets@
    }

    pub closed spec fn spec_current(self) -> Option<Seq<char>> {
        match self.current {
            Some(c) => Some(c@),
            None => None,
        }
    }

    /// A label is tracked with a loaded projection.
    pub open spec fn loaded(self, l: Seq<char>) -> bool {
        self@.dom().contains(l) && self@[l] is Some
    }

    pub closed spec fn wf(self) -> bool {
        &&& self.wallets.wf()
        &&& match self.current {
            Some(c) => self@.dom().contains(c@) && self@[c@] is Some,
            None => true,
        }
    }

    /// A well-formed collection keeps a loaded projection for the
    /// current label.
    pub proof fn lemma_wf_current(self)
        requires
            self.wf(),
        ensures
            self.spec_current() matches Some(c) ==> self@.dom().contains(c) && self@[c] is Some,
    {
    }

    pub fn new() -> (r: WalletsCollection)
        ensures
            r.wf(),
            r@ =~= Map::<Seq<char>, Option<WalletData>>::empty(),
            r.spec_current() is None,
    {
        WalletsCollection { current: None, wallets: LabelMap::new() }
    }

    /// Replaces the set of known wallets with the authoritative list.
    /// Labels not in the list are pruned; labels already known keep their
    /// cached projection; new labels start without one.  The current
    /// selection survives exactly when its label is still listed.
    pub fn set_wallets(&mut self, names: &Vec<String>)
        requires
            old(self).wf(),
        ensures
            final(self).wf(),
            final(self)@.dom() =~= labels_of(names@),
            forall|l: Seq<char>|
                final(self)@.dom().contains(l) ==> final(self)@[l] == (if old(self)@.dom().contains(
                    l,
                ) {
                    old(self)@[l]
                } else {
                    None::<WalletData>
                }),
            final(self).spec_current() == (match old(self).spec_current() {
                Some(c) => if labels_of(names@).contains(c) {
                    old(self).spec_current()
                } else {
                    None
                },
                None => None::<Seq<char>>,
            }),
    {
        let ghost orig = self.wallets@;
        let mut fresh: LabelMap<Option<WalletData>> = LabelMap::new();
        let n = names.len();
        let mut k: usize = 0;
        while k < n
            invariant
                n == names@.len(),
                k <= n,
                self.wallets.wf(),
                fresh.wf(),
                self.current == old(self).current,
                forall|l: Seq<char>|
                    #[trigger] fresh@.dom().contains(l) == exists|j: int|
                        0 <= j < k && (#[trigger] names@[j])@ == l,
                forall|l: Seq<char>|
                    fresh@.dom().contains(l) ==> fresh@[l] == (if orig.dom().contains(l) {
                        orig[l]
                    } else {
                        None::<WalletData>
                    }),
                forall|l: Seq<char>|
                    !fresh@.dom().contains(l) ==> #[trigger] self.wallets@.dom().contains(l)
                        == orig.dom().contains(l),
                forall|l: Seq<char>|
                    !fresh@.dom().contains(l) && orig.dom().contains(l)
                        ==> #[trigger] self.wallets@[l] == orig[l],
            decreases n - k,
        {
            let ghost pre_fresh = fresh@;
            let ghost pre_wallets = self.wallets@;
            let name: &String = &names[k];
            if !fresh.contains(name.as_str()) {
                match self.wallets.take(name.as_str()) {
                    Some(v) => {
                        fresh.set(name.clone(), v);
                    }
                    None => {
                        fresh.set(name.clone(), None);
                    }
                }
                proof {
                    assert(fresh@ =~= pre_fresh.insert(name@, if orig.dom().contains(name@) {
                        orig[name@]
                    } else {
                        None::<WalletData>
                    }));
                }
            }
            proof {
                assert(fresh@.dom().contains(name@));
                assert forall|l: Seq<char>| #[trigger] fresh@.dom().contains(l) == exists|j: int|
                    0 <= j < k + 1 && (#[trigger] names@[j])@ == l by {
                    if fresh@.dom().contains(l) {
                        if pre_fresh.dom().contains(l) {
                            let j = choose|j: int| 0 <= j < k && (#[trigger] names@[j])@ == l;
                            assert(0 <= j < k + 1 && names@[j]@ == l);
                        } else {
                            assert(l == name@);
                            assert(names@[k as int]@ == l);
                        }
                    }
                    if exists|j: int| 0 <= j < k + 1 && (#[trigger] names@[j])@ == l {
                        let j = choose|j: int| 0 <= j < k + 1 && (#[trigger] names@[j])@ == l;
                        if j < k {
                            assert(pre_fresh.dom().contains(l));
                            assert(fresh@.dom().contains(l));
                        } else {
                            assert(l == name@);
                        }
                    }
                }
                assert forall|l: Seq<char>| !fresh@.dom().contains(l) implies (
                    #[trigger] self.wallets@.dom().contains(l) == orig.dom().contains(l)
                    && (orig.dom().contains(l) ==> self.wallets@[l] == orig[l])
                ) by {
                    assert(!pre_fresh.dom().contains(l));
                    assert(l != name@);
                }
            }
            k += 1;
        }
        self.wallets = fresh;
        proof {
            assert(self.wallets@.dom() =~= labels_of(names@)) by {
                assert forall|l: Seq<char>| self.wallets@.dom().contains(l)
                    == labels_of(names@).contains(l) by {
                    assert(fresh@.dom().contains(l) == exists|j: int|
                        0 <= j < n && (#[trigger] names@[j])@ == l);
                }
            }
        }
        let keep = match &self.current {
            Some(c) => self.wallets.contains(c.as_str()),
            None => false,
        };
        if !keep {
            self.current = None;
        }
        proof {
            match old(self).current {
                Some(c) => {
                    if labels_of(names@).contains(c@) {
                        assert(self.wallets@.dom().contains(c@));
                        assert(self.current == Some(c));
                        assert(orig.dom().contains(c@));
                        assert(self.wallets@[c@] == orig[c@]);
                    } else {
                        assert(self.current is None);
                    }
                }
                None => {
                    assert(self.current is None);
                }
            }
        }
    }

    /// The known wallet labels, in the order the authoritative list gave
    /// them.
    pub fn get_wallets(&self) -> (r: Vec<String>)
        ensures
            forall|i: int| 0 <= i < r@.len() ==> self@.dom().contains((#[trigger] r@[i])@),
            forall|l: Seq<char>|
                self@.dom().contains(l) ==> exists|i: int| 0 <= i < r@.len() && (#[trigger] r@[i])@
                    == l,
    {
        proof {
            self.wallets.lemma_labels_dom();
        }
        let r = self.wallets.labels();
        proof {
            assert forall|l: Seq<char>| self@.dom().contains(l) implies exists|i: int|
                0 <= i < r@.len() && (#[trigger] r@[i])@ == l by {
                let i = choose|i: int|
                    0 <= i < self.wallets.spec_labels().len()
                        && #[trigger] self.wallets.spec_labels()[i] == l;
                assert(r@[i]@ == l);
            }
        }
        r
    }

    /// Selects a wallet by label.  Succeeds exactly when the label is
    /// tracked; a wallet selected for the first time gets a fresh, empty
    /// projection.
    pub fn set_current(&mut self, label: &str) -> (r: bool)
        requires
            old(self).wf(),
        ensures
            final(self).wf(),
            r == old(self)@.dom().contains(label@),
            !r ==> *final(self) == *old(self),
            r ==> final(self).spec_current() == Some(label@),
            r ==> final(self)@.dom() =~= old(self)@.dom(),
            r ==> forall|l: Seq<char>|
                l != label@ && old(self)@.dom().contains(l) ==> final(self)@[l] == old(self)@[l],
            r && old(self)@[label@] is Some ==> final(self)@[label@] == old(self)@[label@],
            r && old(self)@[label@] is None ==> (final(self)@[label@] matches Some(d)
                && wallet_data_empty(d)),
    {
        match self.wallets.take(label) {
            Some(v) => {
                match v {
                    Some(d) => {
                        self.wallets.set(label.to_owned(), Some(d));
                    }
                    None => {
                        self.wallets.set(label.to_owned(), Some(WalletData::default()));
                    }
                }
                self.current = Some(label.to_owned());
                proof {
                    assert(self@.dom() =~= old(self)@.dom());
                }
                true
            }
            None => false,
        }
    }

    /// Clears the wallet selection.
    pub fn unset_current(&mut self)
        requires
            old(self).wf(),
        ensures
            final(self).wf(),
            final(self)@ == old(self)@,
            final(self).spec_current() is None,
    {
        self.current = None;
    }

    /// Whether a label is tracked with a loaded projection.
    pub fn is_loaded(&self, label: &str) -> (r: bool)
        requires
            self.wf(),
        ensures
            r == self.loaded(label@),
    {
        match self.wallets.get(label) {
            Some(v) => v.is_some(),
            None => false,
        }
    }

    /// The currently selected wallet and its projection, if one is
    /// selected.
    pub fn get_current(&self) -> (r: Option<WalletEntry<'_>>)
        requires
            self.wf(),
        ensures
            match r {
                Some(e) => self.spec_current() == Some(e.label@) && self@.dom().contains(e.label@)
                    && self@[e.label@] == Some(*e.state),
                None => self.spec_current() is None,
            },
    {
        match &self.current {
            Some(c) => {
                match self.wallets.get(c.as_str()) {
                    Some(v) => match v {
                        Some(d) => Some(WalletEntry { label: c, state: d }),
                        None => None,
                    },
                    None => None,
                }
            }
            None => None,
        }
    }

    /// The label of the currently selected wallet.
    pub fn get_current_label(&self) -> (r: Option<&String>)
        ensures
            match r {
                Some(c) => self.spec_current() == Some(c@),
                None => self.spec_current() is None,
            },
    {
        match &self.current {
            Some(c) => Some(c),
            None => None,
        }
    }

    /// Records the sync status reported for a wallet.  The write is
    /// dropped when the label is not tracked with a loaded projection.
    pub fn set_sync(&mut self, label: &str, height: u32, synced: bool)
        requires
            old(self).wf(),
        ensures
            final(self).wf(),
            final(self).spec_current() == old(self).spec_current(),
            !old(self).loaded(label@) ==> *final(self) == *old(self),
            old(self).loaded(label@) ==> final(self)@ =~= old(self)@.insert(
                label@,
                Some(with_sync(old(self)@[label@]->0, height, synced)),
            ),
    {
        let loaded = match self.wallets.get(label) {
            Some(v) => v.is_some(),
            None => false,
        };
        if loaded {
            match self.wallets.take(label) {
                Some(opt) => match opt {
                    Some(d) => {
                        let nd = WalletData {
                            sync_height: height,
                            synced,
                            balance: d.balance,
                            coin_address: d.coin_address,
                            space_address: d.space_address,
                            winning_spaces: d.winning_spaces,
                            outbid_spaces: d.outbid_spaces,
                            owned_spaces: d.owned_spaces,
                            transactions: d.transactions,
                        };
                        self.wallets.set(label.to_owned(), Some(nd));
                    }
                    None => {
                        proof {
                            assert(false);
                        }
                    }
                },
                None => {
                    proof {
                        assert(false);
                    }
                }
            }
        }
    }

    /// Records the balance reported for a wallet.  The write is dropped
    /// when the label is not tracked with a loaded projection.
    pub fn set_balance(&mut self, label: &str, balance: u64)
        requires
            old(self).wf(),
        ensures
            final(self).wf(),
            final(self).spec_current() == old(self).spec_current(),
            !old(self).loaded(label@) ==> *final(self) == *old(self),
            old(self).loaded(label@) ==> final(self)@ =~= old(self)@.insert(
                label@,
                Some(with_balance(old(self)@[label@]->0, balance)),
            ),
    {
        let loaded = match self.wallets.get(label) {
            Some(v) => v.is_some(),
            None => false,
        };
        if loaded {
            match self.wallets.take(label) {
                Some(opt) => match opt {
                    Some(d) => {
                        let nd = WalletData {
                            sync_height: d.sync_height,
                            synced: d.synced,
                            balance,
                            coin_address: d.coin_address,
                            space_address: d.space_address,
                            winning_spaces: d.winning_spaces,
                            outbid_spaces: d.outbid_spaces,
                            owned_spaces: d.owned_spaces,
                            transactions: d.transactions,
                        };
                        self.wallets.set(label.to_owned(), Some(nd));
                    }
                    None => {
                        proof {
                            assert(false);
                        }
                    }
                },
                None => {
                    proof {
                        assert(false);
                    }
                }
            }
        }
    }

    /// Records a freshly derived receive address of the given kind.  The
    /// write is dropped when the label is not tracked with a loaded
    /// projection.
    pub fn set_address(&mut self, label: &str, kind: AddressKind, addr: AddressData)
        requires
            old(self).wf(),
        ensures
            final(self).wf(),
            final(self).spec_current() == old(self).spec_current(),
            !old(self).loaded(label@) ==> *final(self) == *old(self),
            old(self).loaded(label@) ==> final(self)@ =~= old(self)@.insert(
                label@,
                Some(with_address(old(self)@[label@]->0, kind, addr)),
            ),
    {
        let loaded = match self.wallets.get(label) {
            Some(v) => v.is_some(),
            None => false,
        };
        if loaded {
            match self.wallets.take(label) {
                Some(opt) => match opt {
                    Some(d) => {
                        let nd = match kind {
                            AddressKind::Coin => WalletData {
                                sync_height: d.sync_height,
                                synced: d.synced,
                                balance: d.balance,
                                coin_address: Some(addr),
                                space_address: d.space_address,
                                winning_spaces: d.winning_spaces,
                                outbid_spaces: d.outbid_spaces,
                                owned_spaces: d.owned_spaces,
                                transactions: d.transactions,
                            },
                            AddressKind::Space => WalletData {
                                sync_height: d.sync_height,
                                synced: d.synced,
                                balance: d.balance,
                                coin_address: d.coin_address,
                                space_address: Some(addr),
                                winning_spaces: d.winning_spaces,
                                outbid_spaces: d.outbid_spaces,
                                owned_spaces: d.owned_spaces,
                                transactions: d.transactions,
                            },
                        };
                        self.wallets.set(label.to_owned(), Some(nd));
                    }
                    None => {
                        proof {
                            assert(false);
                        }
                    }
                },
                None => {
                    proof {
                        assert(false);
                    }
                }
            }
        }
    }

    /// Records the winning, outbid and owned space lists of a wallet.
    /// The write is dropped when the label is not tracked with a loaded
    /// projection.
    pub fn set_spaces(
        &mut self,
        label: &str,
        winning: Vec<String>,
        outbid: Vec<String>,
        owned: Vec<String>,
    )
        requires
            old(self).wf(),
        ensures
            final(self).wf(),
            final(self).spec_current() == old(self).spec_current(),
            !old(self).loaded(label@) ==> *final(self) == *old(self),
            old(self).loaded(label@) ==> final(self)@ =~= old(self)@.insert(
                label@,
                Some(with_spaces(old(self)@[label@]->0, winning, outbid, owned)),
            ),
    {
        let loaded = match self.wallets.get(label) {
            Some(v) => v.is_some(),
            None => false,
        };
        if loaded {
            match self.wallets.take(label) {
                Some(opt) => match opt {
                    Some(d) => {
                        let nd = WalletData {
                            sync_height: d.sync_height,
                            synced: d.synced,
                            balance: d.balance,
                            coin_address: d.coin_address,
                            space_address: d.space_address,
                            winning_spaces: winning,
                            outbid_spaces: outbid,
                            owned_spaces: owned,
                            transactions: d.transactions,
                        };
                        self.wallets.set(label.to_owned(), Some(nd));
                    }
                    None => {
                        proof {
                            assert(false);
                        }
                    }
                },
                None => {
                    proof {
                        assert(false);
                    }
                }
            }
        }
    }

    /// Replaces the cached transaction list of a wallet wholesale.  The
    /// write is dropped when the label is not tracked with a loaded
    /// projection.
    pub fn set_transactions(&mut self, label: &str, transactions: Vec<TxInfo>)
        requires
            old(self).wf(),
        ensures
            final(self).wf(),
            final(self).spec_current() == old(self).spec_current(),
            !old(self).loaded(label@) ==> *final(self) == *old(self),
            old(self).loaded(label@) ==> final(self)@ =~= old(self)@.insert(
                label@,
                Some(with_transactions(old(self)@[label@]->0, transactions)),
            ),
    {
        let loaded = match self.wallets.get(label) {
            Some(v) => v.is_some(),
            None => false,
        };
        if loaded {
            match self.wallets.take(label) {
                Some(opt) => match opt {
                    Some(d) => {
                        let nd = WalletData {
                            sync_height: d.sync_height,
                            synced: d.synced,
                            balance: d.balance,
                            coin_address: d.coin_address,
                            space_address: d.space_address,
                            winning_spaces: d.winning_spaces,
                            outbid_spaces: d.outbid_spaces,
                            owned_spaces: d.owned_spaces,
                            transactions,
                        };
                        self.wallets.set(label.to_owned(), Some(nd));
                    }
                    None => {
                        proof {
                            assert(false);
                        }
                    }
                },
                None => {
                    proof {
                        assert(false);
                    }
                }
            }
        }
    }
}

} // verus!
