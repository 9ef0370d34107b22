//! Handler registry: an associative store from string keys to handler
//! values, with last-registration-wins semantics.
//!
//! The registry is viewed as a `Map` from key characters to values. It is
//! generic in the value type, so the same store serves tool, resource and
//! prompt handlers; callers that need shared mutation wrap a registry in a
//! lock of their choosing, which preserves the per-operation contracts
//! stated here.

use crate::text::str_eq;
use vstd::prelude::*;

verus! {

/// One key/value pair of a registry.
struct Entry<V> {
    key: String,
    val: V,
}

/// Maps string keys to handler values. Registration under an existing key
/// replaces the old value; lookup never mutates.
pub struct Registry<V> {
    entries: Vec<Entry<V>>,
}

impl<V> View for Registry<V> {
    type V = Map<Seq<char>, V>;

    closed spec fn view(&self) -> Map<Seq<char>, V> {
        map_of(self.entries@)
    }
}

/// The mapping a sequence of entries denotes: later entries shadow earlier
/// ones with the same key.
spec fn map_of<V>(s: Seq<Entry<V>>) -> Map<Seq<char>, V>
    decreases s.len(),
{
    if s.len() == 0 {
        Map::empty()
    } else {
        map_of(s.drop_last()).insert(s.last().key@, s.last().val)
    }
}

/// No two entries share a key.
spec fn keys_unique<V>(s: Seq<Entry<V>>) -> bool {
    forall|i: int, j: int| 0 <= i < j < s.len() ==> s[i].key@ != s[j].key@
}

proof fn lemma_contains<V>(s: Seq<Entry<V>>, k: Seq<char>)
    ensures
        map_of(s).contains_key(k) <==> exists|i: int| 0 <= i < s.len() && s[i].key@ == k,
    decreases s.len(),
{
    if s.len() > 0 {
        lemma_contains(s.drop_last(), k);
        if s.last().key@ == k {
            assert(s[s.len() - 1].key@ == k);
        } else {
            assert(forall|i: int| 0 <= i < s.len() - 1 ==> s.drop_last()[i] == s[i]);
            if map_of(s).contains_key(k) {
                let i = choose|i: int| 0 <= i < s.drop_last().len() && s.drop_last()[i].key@ == k;
                assert(s[i].key@ == k);
            }
            if exists|i: int| 0 <= i < s.len() && s[i].key@ == k {
                let i = choose|i: int| 0 <= i < s.len() && s[i].key@ == k;
                assert(s.drop_last()[i].key@ == k);
            }
        }
    }
}

proof fn lemma_value_at<V>(s: Seq<Entry<V>>, i: int)
    requires
        keys_unique(s),
        0 <= i < s.len(),
    ensures
        map_of(s).contains_key(s[i].key@),
        map_of(s)[s[i].key@] == s[i].val,
    decreases s.len(),
{
    if i < s.len() - 1 {
        assert(forall|j: int| 0 <= j < s.len() - 1 ==> s.drop_last()[j] == s[j]);
        lemma_value_at(s.drop_last(), i);
        assert(s[i].key@ != s.last().key@);
    }
}

proof fn lemma_update<V>(s: Seq<Entry<V>>, i: int, e: Entry<V>)
    requires
        keys_unique(s),
        0 <= i < s.len(),
        e.key@ == s[i].key@,
    ensures
        map_of(s.update(i, e)) =~= map_of(s).insert(e.key@, e.val),
    decreases s.len(),
{
    let t = s.update(i, e);
    if i == s.len() - 1 {
        assert(t.drop_last() =~= s.drop_last());
        assert(map_of(t) =~= map_of(s).insert(e.key@, e.val));
    } else {
        assert(forall|j: int| 0 <= j < s.len() - 1 ==> s.drop_last()[j] == s[j]);
        assert(t.drop_last() =~= s.drop_last().update(i, e));
        lemma_update(s.drop_last(), i, e);
        assert(s.last().key@ != e.key@);
        assert(map_of(t) =~= map_of(s).insert(e.key@, e.val));
    }
}

impl<V> Registry<V> {
    /// Internal well-formedness: no two entries share a key. Established by
    /// `new` and preserved by every method.
    pub closed spec fn wf(&self) -> bool {
        keys_unique(self.entries@)
    }

    /// An empty registry.
    pub fn new() -> (r: Self)
        ensures
            r.wf(),
            r@ == Map::<Seq<char>, V>::empty(),
    {
        Registry { entries: Vec::new() }
    }

    /// Installs `val` under `key`, replacing any earlier value for that key
    /// and leaving every other key's value as it was.
    pub fn register(&mut self, key: String, val: V)
        requires
            old(self).wf(),
        ensures
            final(self).wf(),
            final(self)@ == old(self)@.insert(key@, val),
    {
        let ghost s0 = self.entries@;
        let n = self.entries.len();
        let mut i: usize = 0;
        while i < n
            invariant
                n == self.entries@.len(),
                i <= n,
                self.entries@ == s0,
                old(self).entries@ == s0,
                keys_unique(s0),
                forall|j: int| 0 <= j < i ==> s0[j].key@ != key@,
            decreases n - i,
        {
            if str_eq(self.entries[i].key.as_str(), key.as_str()) {
                self.entries[i] = Entry { key, val };
                proof {
                    lemma_update(s0, i as int, self.entries@[i as int]);
                    assert(map_of(self.entries@) =~= map_of(s0).insert(key@, val));
                    assert(keys_unique(self.entries@));
                }
                return;
            }
            i += 1;
        }
        proof {
            lemma_contains(s0, key@);
        }
        self.entries.push(Entry { key, val });
        proof {
            assert(self.entries@.drop_last() =~= s0);
            assert(keys_unique(self.entries@));
        }
    }

    /// Looks the key up without removing it; absence is signalled by `None`,
    /// never by an error.
    pub fn get<'a>(&'a self, key: &str) -> (r: Option<&'a V>)
        requires
            self.wf(),
        ensures
            match r {
                Some(v) => self@.contains_key(key@) && *v == self@[key@],
                None => !self@.contains_key(key@),
            },
    {
        let n = self.entries.len();
        let mut i: usize = 0;
        while i < n
            invariant
                n == self.entries@.len(),
                i <= n,
                keys_unique(self.entries@),
                self@ == map_of(self.entries@),
                forall|j: int| 0 <= j < i ==> self.entries@[j].key@ != key@,
            decreases n - i,
        {
            if str_eq(self.entries[i].key.as_str(), key) {
                proof {
                    lemma_value_at(self.entries@, i as int);
                }
                return Some(&self.entries[i].val);
            }
            i += 1;
        }
        proof {
            lemma_contains(self.entries@, key@);
        }
        None
    }
}

/// A later registration for a key wins: after installing `val` under `key`,
/// a lookup for `key` yields exactly `val`, and a lookup for any other key
/// yields what it yielded before.
pub proof fn lemma_latest_registration_wins<V>(m: Map<Seq<char>, V>, key: Seq<char>, val: V)
    ensures
        m.insert(key, val).contains_key(key),
        m.insert(key, val)[key] == val,
        forall|k: Seq<char>|
            k != key ==> m.insert(key, val).contains_key(k) == m.contains_key(k),
        forall|k: Seq<char>|
            k != key && m.contains_key(k) ==> m.insert(key, val)[k] == m[k],
{
}

} // verus!
