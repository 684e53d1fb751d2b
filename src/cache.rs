//! A small in-memory map keyed by tenant identity, the store behind the
//! tenant cache and the database pool cache.
use vstd::prelude::*;

verus! {

/// Identity of a tenant: its environment and its identifier.
#[derive(Debug)]
pub struct TenantKey {
    pub env: String,
    pub id: u128,
}

/// A tenant identity as the contracts see it.
pub type KeyModel = (Seq<char>, u128);

impl View for TenantKey {
    type V = KeyModel;

    open spec fn view(&self) -> KeyModel {
        (self.env@, self.id)
    }
}

struct Entry<V> {
    env: String,
    id: u128,
    value: V,
}

spec fn entry_key<V>(e: Entry<V>) -> KeyModel {
    (e.env@, e.id)
}

/// The map that a list of entries stands for; a later entry wins.
spec fn entries_map<V>(s: Seq<Entry<V>>) -> Map<KeyModel, V>
    decreases s.len(),
{
    if s.len() == 0 {
        Map::empty()
    } else {
        entries_map(s.drop_last()).insert(entry_key(s.last()), s.last().value)
    }
}

spec fn unique_keys<V>(s: Seq<Entry<V>>) -> bool {
    forall|i: int, j: int|
        0 <= i < s.len() && 0 <= j < s.len() && i != j ==> entry_key(#[trigger] s[i]) != entry_key(
            #[trigger] s[j],
        )
}

proof fn lemma_entries_absent<V>(s: Seq<Entry<V>>, k: KeyModel)
    requires
        forall|i: int| 0 <= i < s.len() ==> entry_key(#[trigger] s[i]) != k,
    ensures
        !entries_map(s).contains_key(k),
    decreases s.len(),
{
    if s.len() > 0 {
        lemma_entries_absent(s.drop_last(), k);
    }
}

proof fn lemma_entries_at<V>(s: Seq<Entry<V>>, i: int)
    requires
        unique_keys(s),
        0 <= i < s.len(),
    ensures
        entries_map(s).contains_key(entry_key(s[i])),
        entries_map(s)[entry_key(s[i])] == s[i].value,
    decreases s.len(),
{
    if i < s.len() - 1 {
        let r = s.drop_last();
        assert(r[i] == s[i]);
        lemma_entries_at(r, i);
        assert(entry_key(s[i]) != entry_key(s[s.len() - 1]));
    }
}

proof fn lemma_entries_update<V>(s: Seq<Entry<V>>, i: int, e: Entry<V>)
    requires
        unique_keys(s),
        0 <= i < s.len(),
        entry_key(e) == entry_key(s[i]),
    ensures
        entries_map(s.update(i, e)) == entries_map(s).insert(entry_key(e), e.value),
    decreases s.len(),
{
    let u = s.update(i, e);
    if i == s.len() - 1 {
        assert(u.drop_last() =~= s.drop_last());
        assert(entries_map(u) =~= entries_map(s).insert(entry_key(e), e.value));
    } else {
        let r = s.drop_last();
        assert(u.drop_last() =~= r.update(i, e));
        lemma_entries_update(r, i, e);
        assert(entry_key(s[i]) != entry_key(s[s.len() - 1]));
        assert(entries_map(u) =~= entries_map(s).insert(entry_key(e), e.value));
    }
}

/// Values keyed by tenant identity, at most one per key.
pub struct KeyedCache<V> {
    entries: Vec<Entry<V>>,
}

impl<V> View for KeyedCache<V> {
    type V = Map<KeyModel, V>;

    closed spec fn view(&self) -> Map<KeyModel, V> {
        entries_map(self.entries@)
    }
}

impl<V> KeyedCache<V> {
    pub closed spec fn wf(&self) -> bool {
        unique_keys(self.entries@)
    }

    /// An empty cache.
    pub fn new() -> (r: Self)
        ensures
            r.wf(),
            r@ == Map::<KeyModel, V>::empty(),
    {
        KeyedCache { entries: Vec::new() }
    }

    fn position(&self, env: &str, id: u128) -> (r: Option<usize>)
        requires
            self.wf(),
        ensures
            r matches Some(i) ==> i < self.entries@.len() && entry_key(self.entries@[i as int]) == (
            env@, id),
            r is None ==> forall|i: int|
                0 <= i < self.entries@.len() ==> entry_key(#[trigger] self.entries@[i]) != (env@, id),
    {
        let wanted = env.to_owned();
        let mut i: usize = 0;
        while i < self.entries.len()
            invariant
                i <= self.entries.len(),
                wanted@ == env@,
                forall|k: int|
                    0 <= k < i ==> entry_key(#[trigger] self.entries@[k]) != (env@, id),
            decreases self.entries.len() - i,
        {
            if self.entries[i].id == id && self.entries[i].env == wanted {
                return Some(i);
            }
            i = i + 1;
        }
        None
    }

    /// The value cached for `(env, id)`, if any.
    pub fn get(&self, env: &str, id: u128) -> (r: Option<&V>)
        requires
            self.wf(),
        ensures
            r matches Some(v) ==> self@.contains_key((env@, id)) && *v == self@[(env@, id)],
            r is None ==> !self@.contains_key((env@, id)),
    {
        match self.position(env, id) {
            Some(i) => {
                proof {
                    lemma_entries_at(self.entries@, i as int);
                }
                Some(&self.entries[i].value)
            },
            None => {
                proof {
                    lemma_entries_absent(self.entries@, (env@, id));
                }
                None
            },
        }
    }

    /// Caches `value` for `(env, id)`, replacing what was there.
    pub fn insert(&mut self, env: &str, id: u128, value: V)
        requires
            old(self).wf(),
        ensures
            final(self).wf(),
            final(self)@ == old(self)@.insert((env@, id), value),
    {
        let e = Entry { env: env.to_owned(), id, value };
        match self.position(env, id) {
            Some(i) => {
                proof {
                    lemma_entries_update(self.entries@, i as int, e);
                }
                let ghost pre = self.entries@;
                self.entries.set(i, e);
                assert(self.entries@ =~= pre.update(i as int, e));
                assert(unique_keys(self.entries@)) by {
                    assert forall|a: int, b: int|
                        0 <= a < self.entries@.len() && 0 <= b < self.entries@.len() && a != b
                            implies entry_key(#[trigger] self.entries@[a]) != entry_key(
                            #[trigger] self.entries@[b],
                        ) by {
                        if a != i as int && b != i as int {
                            assert(entry_key(pre[a]) != entry_key(pre[b]));
                        } else if a == i as int {
                            assert(entry_key(pre[i as int]) != entry_key(pre[b]));
                        } else {
                            assert(entry_key(pre[a]) != entry_key(pre[i as int]));
                        }
                    }
                }
            },
            None => {
                let ghost pre = self.entries@;
                self.entries.push(e);
                assert(self.entries@.drop_last() =~= pre);
            },
        }
    }

    /// Forgets every cached value.
    pub fn clear(&mut self)
        ensures
            final(self).wf(),
            final(self)@ == Map::<KeyModel, V>::empty(),
    {
        self.entries = Vec::new();
        assert(self.entries@ =~= Seq::<Entry<V>>::empty());
    }

    /// Number of cached values.
    pub fn len(&self) -> (r: usize)
        requires
            self.wf(),
        ensures
            r == self@.len(),
    {
        proof {
            lemma_entries_len(self.entries@);
        }
        self.entries.len()
    }
}

proof fn lemma_entries_len<V>(s: Seq<Entry<V>>)
    requires
        unique_keys(s),
    ensures
        entries_map(s).dom().finite(),
        entries_map(s).len() == s.len(),
    decreases s.len(),
{
    if s.len() > 0 {
        let r = s.drop_last();
        lemma_entries_len(r);
        assert forall|i: int| 0 <= i < r.len() implies entry_key(#[trigger] r[i]) != entry_key(
            s.last(),
        ) by {
            assert(r[i] == s[i]);
        }
        lemma_entries_absent(r, entry_key(s.last()));
    }
}

} // verus!
