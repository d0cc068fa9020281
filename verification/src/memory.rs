//! An in-process counter store with an exact model: every operation's effect
//! on the contents is fully specified and proved. It serves as the precise
//! reference implementation of the store contract and as a controllable
//! stand-in where no shared store is wanted, including failure injection
//! through `set_available`.
use vstd::prelude::*;

use crate::status::StoreUnavailable;
use crate::store::{CounterStore, StoreModel, armed, count_of, incremented};

verus! {

/// One live counter: its key, its count, and the expiry armed on it, if any.
struct CounterEntry {
    key: String,
    count: u64,
    armed: Option<u64>,
}

/// The abstract contents described by a sequence of entries, later entries
/// taking precedence (the store keeps keys unique, so none do).
spec fn model_of(entries: Seq<CounterEntry>) -> StoreModel
    decreases entries.len(),
{
    if entries.len() == 0 {
        StoreModel { counts: Map::empty(), ttls: Map::empty() }
    } else {
        let m = model_of(entries.drop_last());
        let e = entries.last();
        StoreModel {
            counts: m.counts.insert(e.key@, e.count as nat),
            ttls: match e.armed {
                Some(t) => m.ttls.insert(e.key@, t),
                None => m.ttls,
            },
        }
    }
}

/// No two entries share a key.
spec fn distinct_keys(entries: Seq<CounterEntry>) -> bool {
    forall|i: int, j: int|
        0 <= i < j < entries.len() ==> entries[i].key@ != entries[j].key@
}

proof fn lemma_absent(entries: Seq<CounterEntry>, k: Seq<char>)
    requires
        forall|i: int| 0 <= i < entries.len() ==> entries[i].key@ != k,
    ensures
        !model_of(entries).counts.dom().contains(k),
        !model_of(entries).ttls.dom().contains(k),
    decreases entries.len(),
{
    if entries.len() > 0 {
        assert(forall|i: int|
            0 <= i < entries.drop_last().len() ==> entries.drop_last()[i] == entries[i]);
        lemma_absent(entries.drop_last(), k);
    }
}

proof fn lemma_lookup(entries: Seq<CounterEntry>, i: int)
    requires
        distinct_keys(entries),
        0 <= i < entries.len(),
    ensures
        ({
            let k = entries[i].key@;
            let m = model_of(entries);
            m.counts.dom().contains(k) && m.counts[k] == entries[i].count as nat && (match entries[i].armed {
                Some(t) => m.ttls.dom().contains(k) && m.ttls[k] == t,
                None => !m.ttls.dom().contains(k),
            })
        }),
    decreases entries.len(),
{
    let k = entries[i].key@;
    let prefix = entries.drop_last();
    assert(forall|j: int| 0 <= j < prefix.len() ==> prefix[j] == entries[j]);
    if i == entries.len() - 1 {
        lemma_absent(prefix, k);
    } else {
        lemma_lookup(prefix, i);
    }
}

proof fn lemma_update(entries: Seq<CounterEntry>, i: int, e: CounterEntry)
    requires
        distinct_keys(entries),
        0 <= i < entries.len(),
        e.key@ == entries[i].key@,
    ensures
        ({
            let k = e.key@;
            let m0 = model_of(entries);
            let m1 = model_of(entries.update(i, e));
            m1.counts == m0.counts.insert(k, e.count as nat) && m1.ttls == (match e.armed {
                Some(t) => m0.ttls.insert(k, t),
                None => m0.ttls.remove(k),
            })
        }),
    decreases entries.len(),
{
    let k = e.key@;
    let prefix = entries.drop_last();
    let updated = entries.update(i, e);
    assert(forall|j: int| 0 <= j < prefix.len() ==> prefix[j] == entries[j]);
    let m0 = model_of(entries);
    let m1 = model_of(updated);
    let inner0 = model_of(prefix);
    if i == entries.len() - 1 {
        assert(updated.drop_last() =~= prefix);
        assert(updated.last() == e);
        lemma_absent(prefix, k);
        assert(m1.counts =~= m0.counts.insert(k, e.count as nat));
        match (e.armed, entries[i].armed) {
            (Some(t), Some(t0)) => {
                assert(m0.ttls.insert(k, t) =~= inner0.ttls.insert(k, t));
            },
            (Some(t), None) => {},
            (None, Some(t0)) => {
                assert(m0.ttls.remove(k) =~= inner0.ttls);
            },
            (None, None) => {
                assert(m0.ttls.remove(k) =~= inner0.ttls);
            },
        }
    } else {
        let el = entries.last();
        let lk = el.key@;
        assert(lk != k);
        assert(updated.drop_last() =~= prefix.update(i, e));
        assert(updated.last() == el);
        lemma_update(prefix, i, e);
        assert(m1.counts =~= m0.counts.insert(k, e.count as nat));
        match (e.armed, el.armed) {
            (Some(t), Some(lt)) => {
                assert(m1.ttls =~= m0.ttls.insert(k, t));
            },
            (Some(t), None) => {
                assert(m1.ttls =~= m0.ttls.insert(k, t));
            },
            (None, Some(lt)) => {
                assert(m1.ttls =~= m0.ttls.remove(k));
            },
            (None, None) => {
                assert(m1.ttls =~= m0.ttls.remove(k));
            },
        }
    }
}

/// An in-process counter store; `available == false` makes every operation
/// report `StoreUnavailable`, for exercising failure handling.
pub struct MemoryStore {
    entries: Vec<CounterEntry>,
    available: bool,
}

impl MemoryStore {
    #[verifier::type_invariant]
    spec fn inv(&self) -> bool {
        distinct_keys(self.entries@)
    }

    /// An empty, reachable store.
    pub fn new() -> (s: Self)
        ensures
            s.precise(),
            s.up(),
            s.model() == (StoreModel { counts: Map::empty(), ttls: Map::empty() }),
    {
        MemoryStore { entries: Vec::new(), available: true }
    }

    /// Makes the store reachable or unreachable without touching its
    /// contents.
    pub fn set_available(&mut self, available: bool)
        ensures
            final(self).precise(),
            final(self).up() == available,
            final(self).model() == old(self).model(),
    {
        proof {
            use_type_invariant(&*self);
        }
        self.available = available;
    }

    /// The counter value at `key`; zero when the key is absent.
    pub fn count(&self, key: &str) -> (r: u64)
        ensures
            r as nat == count_of(self.model(), key@),
    {
        proof {
            use_type_invariant(&*self);
        }
        let k: String = key.to_owned();
        let n = self.entries.len();
        let mut i: usize = 0;
        while i < n
            invariant
                n == self.entries.len(),
                i <= n,
                k@ == key@,
                distinct_keys(self.entries@),
                forall|j: int| 0 <= j < i ==> self.entries@[j].key@ != key@,
            decreases n - i,
        {
            if self.entries[i].key == k {
                proof {
                    lemma_lookup(self.entries@, i as int);
                }
                return self.entries[i].count;
            }
            i += 1;
        }
        proof {
            lemma_absent(self.entries@, key@);
        }
        0
    }

    /// The ttl the expiry on `key` was last armed with, if any.
    pub fn armed_ttl(&self, key: &str) -> (r: Option<u64>)
        ensures
            r == (if self.model().ttls.dom().contains(key@) {
                Some(self.model().ttls[key@])
            } else {
                None::<u64>
            }),
    {
        proof {
            use_type_invariant(&*self);
        }
        let k: String = key.to_owned();
        let n = self.entries.len();
        let mut i: usize = 0;
        while i < n
            invariant
                n == self.entries.len(),
                i <= n,
                k@ == key@,
                distinct_keys(self.entries@),
                forall|j: int| 0 <= j < i ==> self.entries@[j].key@ != key@,
            decreases n - i,
        {
            if self.entries[i].key == k {
                proof {
                    lemma_lookup(self.entries@, i as int);
                }
                return self.entries[i].armed;
            }
            i += 1;
        }
        proof {
            lemma_absent(self.entries@, key@);
        }
        None
    }
}

impl CounterStore for MemoryStore {
    closed spec fn model(&self) -> StoreModel {
        model_of(self.entries@)
    }

    closed spec fn precise(&self) -> bool {
        true
    }

    closed spec fn up(&self) -> bool {
        self.available
    }

    fn increment(&mut self, key: &str) -> (r: Result<u64, StoreUnavailable>) {
        proof {
            use_type_invariant(&*self);
        }
        if !self.available {
            return Err(StoreUnavailable);
        }
        let k: String = key.to_owned();
        let n = self.entries.len();
        let mut i: usize = 0;
        while i < n
            invariant
                n == self.entries.len(),
                i <= n,
                k@ == key@,
                self.entries@ == old(self).entries@,
                self.available == old(self).available,
                self.available,
                distinct_keys(self.entries@),
                forall|j: int| 0 <= j < i ==> self.entries@[j].key@ != key@,
            decreases n - i,
        {
            if self.entries[i].key == k {
                let ghost entries0 = self.entries@;
                let c = self.entries[i].count;
                let newc = if c < u64::MAX {
                    c + 1
                } else {
                    c
                };
                let e = CounterEntry {
                    key: self.entries[i].key.clone(),
                    count: newc,
                    armed: self.entries[i].armed,
                };
                proof {
                    lemma_lookup(entries0, i as int);
                    lemma_update(entries0, i as int, e);
                }
                let mut entries: Vec<CounterEntry> = Vec::new();
                std::mem::swap(&mut entries, &mut self.entries);
                entries[i] = e;
                proof {
                    assert(forall|p: int|
                        0 <= p < entries@.len() ==> entries@[p].key@ == entries0[p].key@);
                    match entries0[i as int].armed {
                        Some(t) => {
                            assert(model_of(entries@).ttls =~= model_of(entries0).ttls);
                        },
                        None => {
                            assert(model_of(entries@).ttls =~= model_of(entries0).ttls);
                        },
                    }
                }
                self.entries = entries;
                return Ok(newc);
            }
            i += 1;
        }
        proof {
            lemma_absent(self.entries@, key@);
        }
        let ghost entries0 = self.entries@;
        let mut entries: Vec<CounterEntry> = Vec::new();
        std::mem::swap(&mut entries, &mut self.entries);
        entries.push(CounterEntry { key: k, count: 1, armed: None });
        proof {
            assert(entries@.drop_last() =~= entries0);
            assert(forall|p: int| 0 <= p < entries0.len() ==> entries@[p] == entries0[p]);
        }
        self.entries = entries;
        Ok(1)
    }

    fn set_expiry(&mut self, key: &str, ttl: u64) -> (r: Result<(), StoreUnavailable>) {
        proof {
            use_type_invariant(&*self);
        }
        if !self.available {
            return Err(StoreUnavailable);
        }
        let k: String = key.to_owned();
        let n = self.entries.len();
        let mut i: usize = 0;
        while i < n
            invariant
                n == self.entries.len(),
                i <= n,
                k@ == key@,
                self.entries@ == old(self).entries@,
                self.available == old(self).available,
                self.available,
                distinct_keys(self.entries@),
                forall|j: int| 0 <= j < i ==> self.entries@[j].key@ != key@,
            decreases n - i,
        {
            if self.entries[i].key == k {
                let ghost entries0 = self.entries@;
                let e = CounterEntry {
                    key: self.entries[i].key.clone(),
                    count: self.entries[i].count,
                    armed: Some(ttl),
                };
                proof {
                    lemma_lookup(entries0, i as int);
                    lemma_update(entries0, i as int, e);
                }
                let mut entries: Vec<CounterEntry> = Vec::new();
                std::mem::swap(&mut entries, &mut self.entries);
                entries[i] = e;
                proof {
                    assert(forall|p: int|
                        0 <= p < entries@.len() ==> entries@[p].key@ == entries0[p].key@);
                    assert(model_of(entries@).counts =~= model_of(entries0).counts);
                }
                self.entries = entries;
                return Ok(());
            }
            i += 1;
        }
        proof {
            lemma_absent(self.entries@, key@);
        }
        Ok(())
    }

    fn ping(&mut self) -> (r: Result<(), StoreUnavailable>) {
        proof {
            use_type_invariant(&*self);
        }
        if self.available {
            Ok(())
        } else {
            Err(StoreUnavailable)
        }
    }
}

} // verus!
