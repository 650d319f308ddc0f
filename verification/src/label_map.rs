//! A small keyed store: a vector of labelled entries with unique labels,
//! viewed in specifications as a `Map` from label text to value.  Both
//! entity caches of the reducer are built on it.

use vstd::prelude::*;
use vstd::string::*;

verus! {

/// One labelled entry of a [`LabelMap`].
pub struct Entry<T> {
    pub label: String,
    pub value: T,
}

/// No two entries carry the same label.
pub open spec fn unique_labels<T>(s: Seq<Entry<T>>) -> bool {
    forall|i: int, j: int|
        0 <= i < j < s.len() ==> (#[trigger] s[i]).label@ != (#[trigger] s[j]).label@
}

/// Some entry carries this label.
pub open spec fn has_label<T>(s: Seq<Entry<T>>, l: Seq<char>) -> bool {
    exists|i: int| 0 <= i < s.len() && (#[trigger] s[i]).label@ == l
}

/// The map an entry sequence stands for; a later entry wins over an
/// earlier one with the same label.
pub open spec fn entries_map<T>(s: Seq<Entry<T>>) -> Map<Seq<char>, T>
    decreases s.len(),
{
    if s.len() == 0 {
        Map::empty()
    } else {
        entries_map(s.drop_last()).insert(s.last().label@, s.last().value)
    }
}

proof fn lemma_entries_map_dom<T>(s: Seq<Entry<T>>)
    ensures
        forall|l: Seq<char>| entries_map(s).dom().contains(l) == has_label(s, l),
    decreases s.len(),
{
    if s.len() > 0 {
        lemma_entries_map_dom(s.drop_last());
        assert forall|l: Seq<char>| entries_map(s).dom().contains(l) == has_label(s, l) by {
            if entries_map(s).dom().contains(l) {
                if l == s.last().label@ {
                    assert(s[s.len() - 1].label@ == l);
                } else {
                    assert(entries_map(s.drop_last()).dom().contains(l));
                    assert(has_label(s.drop_last(), l));
                    let i = choose|i: int|
                        0 <= i < s.drop_last().len() && (#[trigger] s.drop_last()[i]).label@ == l;
                    assert(s.drop_last()[i] == s[i]);
                    assert(s[i].label@ == l);
                }
            }
            if has_label(s, l) {
                let i = choose|i: int| 0 <= i < s.len() && (#[trigger] s[i]).label@ == l;
                if i < s.len() - 1 {
                    assert(s.drop_last()[i] == s[i]);
                    assert(has_label(s.drop_last(), l));
                    assert(entries_map(s.drop_last()).dom().contains(l));
                }
            }
        }
    }
}

proof fn lemma_entries_map_lookup<T>(s: Seq<Entry<T>>, i: int)
    requires
        unique_labels(s),
        0 <= i < s.len(),
    ensures
        entries_map(s).dom().contains(s[i].label@),
        entries_map(s)[s[i].label@] == s[i].value,
    decreases s.len(),
{
    lemma_entries_map_dom(s);
    if i == s.len() - 1 {
    } else {
        assert(unique_labels(s.drop_last())) by {
            assert(forall|k: int|
                0 <= k < s.len() - 1 ==> (#[trigger] s.drop_last()[k]) == s[k]);
        }
        assert(s.drop_last()[i] == s[i]);
        lemma_entries_map_lookup(s.drop_last(), i);
        assert(s[i].label@ != s.last().label@);
    }
}

proof fn lemma_entries_map_push<T>(s: Seq<Entry<T>>, e: Entry<T>)
    ensures
        entries_map(s.push(e)) =~= entries_map(s).insert(e.label@, e.value),
{
    assert(s.push(e).drop_last() =~= s);
    assert(s.push(e).last() == e);
}

proof fn lemma_entries_map_update<T>(s: Seq<Entry<T>>, i: int, e: Entry<T>)
    requires
        unique_labels(s),
        0 <= i < s.len(),
        e.label@ == s[i].label@,
    ensures
        entries_map(s.update(i, e)) =~= entries_map(s).insert(e.label@, e.value),
        unique_labels(s.update(i, e)),
    decreases s.len(),
{
    assert(unique_labels(s.update(i, e))) by {
        assert(forall|k: int| 0 <= k < s.len() && k != i ==> (#[trigger] s.update(i, e)[k]) == s[k]);
    }
    if i == s.len() - 1 {
        assert(s.update(i, e).drop_last() =~= s.drop_last());
        assert(s.update(i, e).last() == e);
    } else {
        assert(unique_labels(s.drop_last())) by {
            assert(forall|k: int|
                0 <= k < s.len() - 1 ==> (#[trigger] s.drop_last()[k]) == s[k]);
        }
        assert(s.drop_last()[i] == s[i]);
        lemma_entries_map_update(s.drop_last(), i, e);
        assert(s.update(i, e).drop_last() =~= s.drop_last().update(i, e));
        assert(s.update(i, e).last() == s.last());
        assert(s[i].label@ != s.last().label@);
    }
}

proof fn lemma_entries_map_remove<T>(s: Seq<Entry<T>>, i: int)
    requires
        unique_labels(s),
        0 <= i < s.len(),
    ensures
        entries_map(s.remove(i)) =~= entries_map(s).remove(s[i].label@),
        unique_labels(s.remove(i)),
        !has_label(s.remove(i), s[i].label@),
    decreases s.len(),
{
    lemma_entries_map_dom(s);
    lemma_entries_map_dom(s.remove(i));
    assert(unique_labels(s.remove(i))) by {
        assert(forall|k: int|
            0 <= k < s.len() - 1 ==> (#[trigger] s.remove(i)[k]) == (if k < i {
                s[k]
            } else {
                s[k + 1]
            }));
    }
    assert(!has_label(s.remove(i), s[i].label@)) by {
        assert(forall|k: int|
            0 <= k < s.len() - 1 ==> (#[trigger] s.remove(i)[k]) == (if k < i {
                s[k]
            } else {
                s[k + 1]
            }));
    }
    if i == s.len() - 1 {
        assert(s.remove(i) =~= s.drop_last());
        assert(!entries_map(s.drop_last()).dom().contains(s[i].label@)) by {
            lemma_entries_map_dom(s.drop_last());
            assert(forall|k: int|
                0 <= k < s.len() - 1 ==> (#[trigger] s.drop_last()[k]) == s[k]);
        }
    } else {
        assert(unique_labels(s.drop_last())) by {
            assert(forall|k: int|
                0 <= k < s.len() - 1 ==> (#[trigger] s.drop_last()[k]) == s[k]);
        }
        assert(s.drop_last()[i] == s[i]);
        lemma_entries_map_remove(s.drop_last(), i);
        assert(s.remove(i).drop_last() =~= s.drop_last().remove(i));
        assert(s.remove(i).last() == s.last());
        assert(s[i].label@ != s.last().label@);
    }
}

/// Compares two pieces of text character by character.
pub fn str_eq(a: &str, b: &str) -> (r: bool)
    ensures
        r == (a@ == b@),
{
    let na = a.unicode_len();
    let nb = b.unicode_len();
    if na != nb {
        return false;
    }
    let mut k: usize = 0;
    while k < na
        invariant
            na == a@.len(),
            na == b@.len(),
            k <= na,
            forall|i: int| 0 <= i < k ==> a@[i] == b@[i],
        decreases na - k,
    {
        if a.get_char(k) != b.get_char(k) {
            return false;
        }
        k += 1;
    }
    proof {
        assert(a@ =~= b@);
    }
    true
}

/// A keyed store backed by a vector of labelled entries.
pub struct LabelMap<T> {
    entries: Vec<Entry<T>>,
}

impl<T> LabelMap<T> {
    /// The store as a map from label text to stored value.
    pub closed spec fn view(self) -> Map<Seq<char>, T> {
        entries_map(self.entries@)
    }

    /// Labels are unique; every operation keeps this.
    pub closed spec fn wf(self) -> bool {
        unique_labels(self.entries@)
    }

    /// The labels in the order their entries were first added.
    pub closed spec fn spec_labels(self) -> Seq<Seq<char>> {
        Seq::new(self.entries@.len(), |i: int| self.entries@[i].label@)
    }

    pub proof fn lemma_labels_dom(self)
        ensures
            forall|i: int|
                0 <= i < self.spec_labels().len() ==> self.view().dom().contains(
                    #[trigger] self.spec_labels()[i],
                ),
            forall|l: Seq<char>|
                self.view().dom().contains(l) ==> exists|i: int|
                    0 <= i < self.spec_labels().len() && #[trigger] self.spec_labels()[i] == l,
    {
        lemma_entries_map_dom(self.entries@);
        assert forall|i: int| 0 <= i < self.spec_labels().len() implies self.view().dom().contains(
            #[trigger] self.spec_labels()[i],
        ) by {
            assert(self.spec_labels()[i] == self.entries@[i].label@);
            assert(has_label(self.entries@, self.entries@[i].label@));
        }
        assert forall|l: Seq<char>| self.view().dom().contains(l) implies exists|i: int|
            0 <= i < self.spec_labels().len() && #[trigger] self.spec_labels()[i] == l by {
            assert(entries_map(self.entries@).dom().contains(l));
            assert(has_label(self.entries@, l));
            let i = choose|i: int|
                0 <= i < self.entries@.len() && (#[trigger] self.entries@[i]).label@ == l;
            assert(self.spec_labels()[i] == l);
        }
    }

    pub fn new() -> (r: LabelMap<T>)
        ensures
            r.wf(),
            r@ =~= Map::<Seq<char>, T>::empty(),
            r.spec_labels() =~= Seq::<Seq<char>>::empty(),
    {
        LabelMap { entries: Vec::new() }
    }

    fn find(&self, label: &str) -> (r: Option<usize>)
        ensures
            r matches Some(i) ==> i < self.entries@.len() && self.entries@[i as int].label@
                == label@,
            r is None ==> !has_label(self.entries@, label@),
    {
        let n = self.entries.len();
        let mut k: usize = 0;
        while k < n
            invariant
                n == self.entries@.len(),
                k <= n,
                forall|i: int| 0 <= i < k ==> (#[trigger] self.entries@[i]).label@ != label@,
            decreases n - k,
        {
            if str_eq(self.entries[k].label.as_str(), label) {
                return Some(k);
            }
            k += 1;
        }
        None
    }

    /// Whether a label is present.
    pub fn contains(&self, label: &str) -> (r: bool)
        requires
            self.wf(),
        ensures
            r == self@.dom().contains(label@),
    {
        proof {
            lemma_entries_map_dom(self.entries@);
        }
        match self.find(label) {
            Some(i) => {
                proof {
                    lemma_entries_map_lookup(self.entries@, i as int);
                }
                true
            }
            None => false,
        }
    }

    /// Reads the value stored under a label, if any.
    pub fn get(&self, label: &str) -> (r: Option<&T>)
        requires
            self.wf(),
        ensures
            match r {
                Some(v) => self@.dom().contains(label@) && *v == self@[label@],
                None => !self@.dom().contains(label@),
            },
    {
        proof {
            lemma_entries_map_dom(self.entries@);
        }
        match self.find(label) {
            Some(i) => {
                proof {
                    lemma_entries_map_lookup(self.entries@, i as int);
                }
                Some(&self.entries[i].value)
            }
            None => None,
        }
    }

    /// Stores a value under a label, creating or overwriting its entry.
    pub fn set(&mut self, label: String, value: T)
        requires
            old(self).wf(),
        ensures
            final(self).wf(),
            final(self)@ =~= old(self)@.insert(label@, value),
            old(self)@.dom().contains(label@) ==> final(self).spec_labels()
                == old(self).spec_labels(),
            !old(self)@.dom().contains(label@) ==> final(self).spec_labels()
                == old(self).spec_labels().push(label@),
    {
        proof {
            lemma_entries_map_dom(self.entries@);
        }
        match self.find(label.as_str()) {
            Some(i) => {
                proof {
                    lemma_entries_map_lookup(self.entries@, i as int);
                    lemma_entries_map_update(
                        self.entries@,
                        i as int,
                        Entry { label, value },
                    );
                }
                let ghost old_entries = self.entries@;
                let slot = self.entries.remove(i);
                self.entries.insert(i, Entry { label, value });
                proof {
                    assert(self.entries@ =~= old_entries.update(
                        i as int,
                        Entry { label, value },
                    ));
                    assert(self.spec_labels() =~= old(self).spec_labels());
                }
            }
            None => {
                proof {
                    lemma_entries_map_push(self.entries@, Entry { label, value });
                }
                let ghost old_entries = self.entries@;
                self.entries.push(Entry { label, value });
                proof {
                    assert(unique_labels(self.entries@)) by {
                        assert(forall|k: int|
                            0 <= k < old_entries.len() ==> (#[trigger] self.entries@[k])
                                == old_entries[k]);
                    }
                    assert(self.spec_labels() =~= old(self).spec_labels().push(label@));
                }
            }
        }
    }

    /// Takes the value stored under a label out of the store.
    pub fn take(&mut self, label: &str) -> (r: Option<T>)
        requires
            old(self).wf(),
        ensures
            final(self).wf(),
            match r {
                Some(v) => old(self)@.dom().contains(label@) && v == old(self)@[label@]
                    && final(self)@ =~= old(self)@.remove(label@),
                None => !old(self)@.dom().contains(label@) && *final(self) == *old(self),
            },
    {
        proof {
            lemma_entries_map_dom(self.entries@);
        }
        match self.find(label) {
            Some(i) => {
                proof {
                    lemma_entries_map_lookup(self.entries@, i as int);
                    lemma_entries_map_remove(self.entries@, i as int);
                }
                let e = self.entries.remove(i);
                Some(e.value)
            }
            None => None,
        }
    }

    /// The stored labels, cloned, in insertion order.
    pub fn labels(&self) -> (r: Vec<String>)
        ensures
            r@.len() == self.spec_labels().len(),
            forall|i: int| 0 <= i < r@.len() ==> (#[trigger] r@[i])@ == self.spec_labels()[i],
    {
        let n = self.entries.len();
        let mut out: Vec<String> = Vec::new();
        let mut k: usize = 0;
        while k < n
            invariant
                n == self.entries@.len(),
                k <= n,
                out@.len() == k,
                forall|i: int| 0 <= i < k ==> (#[trigger] out@[i])@ == self.entries@[i].label@,
            decreases n - k,
        {
            out.push(self.entries[k].label.clone());
            k += 1;
        }
        out
    }
}

} // verus!
