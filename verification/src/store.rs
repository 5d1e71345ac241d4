use vstd::prelude::*;

verus! {

/// A map from text keys to values that keeps its entries in the order in which
/// their keys first came, and holds no key twice.
pub struct KeyedStore<V> {
    keys: Vec<String>,
    values: Vec<V>,
}

impl<V> View for KeyedStore<V> {
    type V = Map<Seq<char>, V>;

    closed spec fn view(&self) -> Map<Seq<char>, V> {
        Map::new(
            |k: Seq<char>| self.key_seq().contains(k),
            |k: Seq<char>| self.values@[self.key_seq().index_of(k)],
        )
    }
}

impl<V> KeyedStore<V> {
    /// The keys as plain text, in insertion order.
    pub closed spec fn key_seq(&self) -> Seq<Seq<char>> {
        self.keys@.map_values(|k: String| k@)
    }

    /// Every key has its value, and no key occurs twice.
    pub closed spec fn wf(&self) -> bool {
        &&& self.keys@.len() == self.values@.len()
        &&& self.key_seq().no_duplicates()
    }

    /// The keys of the map are exactly the keys in `key_seq`, so there are
    /// finitely many, as many as `key_seq` is long, and no more than the
    /// machine can count.
    pub proof fn lemma_dom(&self)
        requires
            self.wf(),
        ensures
            self@.dom() == self.key_seq().to_set(),
            self@.dom().finite(),
            self@.dom().len() == self.key_seq().len(),
            self.key_seq().len() <= usize::MAX,
    {
        self.key_seq().unique_seq_to_set();
        assert(self.keys.len() == self.keys@.len());
    }

    pub fn new() -> (s: Self)
        ensures
            s.wf(),
            s@ == Map::<Seq<char>, V>::empty(),
            s.key_seq() == Seq::<Seq<char>>::empty(),
    {
        KeyedStore { keys: Vec::new(), values: Vec::new() }
    }

    /// The number of entries.
    pub fn len(&self) -> (n: usize)
        requires
            self.wf(),
        ensures
            n == self@.dom().len(),
            n == self.key_seq().len(),
    {
        proof {
            self.lemma_dom();
        }
        self.keys.len()
    }

    /// Where `key` stands among the keys, if it does.
    fn position(&self, key: &String) -> (r: Option<usize>)
        requires
            self.wf(),
        ensures
            match r {
                Some(i) => i < self.key_seq().len() && self.key_seq()[i as int] == key@
                    && self.key_seq().index_of(key@) == i,
                None => !self.key_seq().contains(key@),
            },
    {
        let mut i: usize = 0;
        while i < self.keys.len()
            invariant
                self.wf(),
                i <= self.keys@.len(),
                forall|j: int| 0 <= j < i ==> self.key_seq()[j] != key@,
            decreases self.keys@.len() - i,
        {
            if self.keys[i] == *key {
                assert(self.key_seq()[i as int] == key@);
                return Some(i);
            }
            i = i + 1;
        }
        None
    }

    pub fn contains_key(&self, key: &String) -> (r: bool)
        requires
            self.wf(),
        ensures
            r == self@.contains_key(key@),
    {
        self.position(key).is_some()
    }

    pub fn get(&self, key: &String) -> (r: Option<&V>)
        requires
            self.wf(),
        ensures
            match r {
                Some(v) => self@.contains_key(key@) && *v == self@[key@],
                None => !self@.contains_key(key@),
            },
    {
        match self.position(key) {
            Some(i) => Some(&self.values[i]),
            None => None,
        }
    }

    /// Binds `key` to `value`. An entry under the same key is replaced and
    /// keeps its place; a new key goes to the end.
    pub fn insert(&mut self, key: String, value: V)
        requires
            old(self).wf(),
        ensures
            final(self).wf(),
            final(self)@ == old(self)@.insert(key@, value),
            final(self).key_seq() == if old(self)@.contains_key(key@) {
                old(self).key_seq()
            } else {
                old(self).key_seq().push(key@)
            },
    {
        match self.position(&key) {
            Some(i) => {
                self.values.set(i, value);
            },
            None => {
                self.keys.push(key);
                self.values.push(value);
                proof {
                    let before = old(self).key_seq();
                    let after = self.key_seq();
                    let n = before.len() as int;
                    assert(after.no_duplicates()) by {
                        assert forall|i: int, j: int|
                            0 <= i < after.len() && 0 <= j < after.len() && i != j implies after[i]
                            != after[j] by {
                            if i < n {
                                assert(before[i] == after[i]);
                            }
                            if j < n {
                                assert(before[j] == after[j]);
                            }
                        }
                    }
                    assert forall|k: Seq<char>| after.contains(k) <==> (before.contains(k) || k
                        == key@) by {
                        if before.contains(k) {
                            assert(after[before.index_of(k)] == k);
                        }
                        if k == key@ {
                            assert(after[n] == k);
                        }
                        if after.contains(k) {
                            let j = after.index_of(k);
                            if j < n {
                                assert(before[j] == k);
                            }
                        }
                    }
                    assert forall|k: Seq<char>| after.contains(k) implies self.values@[after.index_of(
                        k,
                    )] == old(self)@.insert(key@, value)[k] by {
                        if k == key@ {
                            assert(after[n] == k);
                        } else {
                            let j0 = before.index_of(k);
                            assert(after[j0] == k);
                        }
                    }
                }
            },
        }
    }

    /// Takes the store apart into its keys, in the order in which they first
    /// came, and its values, each at the place of its key.
    pub fn into_parts(self) -> (r: (Vec<String>, Vec<V>))
        requires
            self.wf(),
        ensures
            text_views(r.0@) == self.key_seq(),
            text_views(r.0@).no_duplicates(),
            r.1@.len() == r.0@.len(),
            forall|i: int|
                0 <= i < r.1@.len() ==> r.1@[i] == #[trigger] self@[self.key_seq()[i]],
    {
        (self.keys, self.values)
    }

    /// The store that holds `values[i]` under `keys[i]` for every `i`, where
    /// there is one: the two must be of one length, and no key may occur
    /// twice.
    pub fn from_parts(keys: Vec<String>, values: Vec<V>) -> (r: Option<Self>)
        ensures
            match r {
                Some(s) => {
                    &&& s.wf()
                    &&& keys@.len() == values@.len()
                    &&& text_views(keys@).no_duplicates()
                    &&& s.key_seq() == text_views(keys@)
                    &&& forall|i: int|
                        0 <= i < values@.len() ==> #[trigger] s@[text_views(keys@)[i]] == values@[i]
                },
                None => keys@.len() != values@.len() || !text_views(keys@).no_duplicates(),
            },
    {
        if keys.len() != values.len() {
            return None;
        }
        let ghost texts = text_views(keys@);
        let mut i: usize = 0;
        while i < keys.len()
            invariant
                i <= keys@.len(),
                texts == text_views(keys@),
                forall|a: int, b: int| 0 <= a < b < i ==> texts[a] != texts[b],
            decreases keys@.len() - i,
        {
            let mut j: usize = 0;
            while j < i
                invariant
                    j <= i < keys@.len(),
                    texts == text_views(keys@),
                    forall|a: int| 0 <= a < j ==> texts[a] != texts[i as int],
                decreases i - j,
            {
                if keys[j] == keys[i] {
                    assert(texts[j as int] == texts[i as int]);
                    return None;
                }
                j = j + 1;
            }
            i = i + 1;
        }
        Some(KeyedStore { keys, values })
    }
}

/// The texts that the strings hold.
pub open spec fn text_views(texts: Seq<String>) -> Seq<Seq<char>> {
    texts.map_values(|t: String| t@)
}

} // verus!
