//! String-keyed collections used as contract storage: an association map with
//! unique keys and an ordered list of strings.
use vstd::prelude::*;

verus! {

/// The character sequences of a sequence of strings.
pub open spec fn strs(v: Seq<String>) -> Seq<Seq<char>> {
    v.map_values(|s: String| s@)
}

/// The predicate "differs from `v`".
pub open spec fn other_than(v: Seq<char>) -> spec_fn(Seq<char>) -> bool {
    |x: Seq<char>| x != v
}

/// Copies a vector of strings, string by string.
pub fn copy_strings(v: &Vec<String>) -> (r: Vec<String>)
    ensures
        strs(r@) == strs(v@),
{
    let mut out: Vec<String> = Vec::new();
    let mut i: usize = 0;
    while i < v.len()
        invariant
            i <= v.len(),
            strs(out@) =~= strs(v@).take(i as int),
        decreases v.len() - i,
    {
        let ghost before = out@;
        let c = v[i].clone();
        out.push(c);
        proof {
            assert(strs(out@) =~= strs(before).push(v@[i as int]@));
            assert(strs(v@).take(i + 1) =~= strs(v@).take(i as int).push(v@[i as int]@));
        }
        i = i + 1;
    }
    assert(strs(v@).take(v.len() as int) =~= strs(v@));
    out
}

/// Whether two strings hold the same characters.
pub fn same_str(a: &String, b: &String) -> (r: bool)
    ensures
        r == (a@ == b@),
{
    *a == *b
}

/// A map from strings to values; every key occurs once.
pub struct StrMap<V> {
    entries: Vec<(String, V)>,
}

spec fn strs_of_entries<V>(es: Seq<(String, V)>) -> Seq<Seq<char>> {
    es.map_values(|e: (String, V)| e.0@)
}

impl<V> StrMap<V> {
    /// The keys, in the order they were first inserted.
    pub closed spec fn key_view(&self) -> Seq<Seq<char>> {
        strs_of_entries(self.entries@)
    }

    #[verifier::type_invariant]
    closed spec fn keys_unique(self) -> bool {
        self.key_view().no_duplicates()
    }

    /// The contents as a map from character sequences to values.
    pub closed spec fn view(&self) -> Map<Seq<char>, V> {
        Map::new(
            |k: Seq<char>| self.key_view().contains(k),
            |k: Seq<char>| self.entries@[self.key_view().index_of(k)].1,
        )
    }

    /// The contents are a finite map.
    pub proof fn lemma_finite(&self)
        ensures
            self@.dom().finite(),
    {
        assert(self@.dom() =~= self.key_view().to_set());
        vstd::seq_lib::seq_to_set_is_finite(self.key_view());
    }

    proof fn lemma_index_of(&self, i: int)
        requires
            self.key_view().no_duplicates(),
            0 <= i < self.entries@.len(),
        ensures
            self.key_view().contains(self.key_view()[i]),
            self.key_view().index_of(self.key_view()[i]) == i,
            self@.dom().contains(self.entries@[i].0@),
            self@[self.entries@[i].0@] == self.entries@[i].1,
    {
        let kv = self.key_view();
        assert(kv[i] == self.entries@[i].0@);
        assert(kv.contains(kv[i]));
        let j = kv.index_of(kv[i]);
        assert(0 <= j < kv.len() && kv[j] == kv[i]);
    }

    proof fn lemma_len(&self)
        requires
            self.key_view().no_duplicates(),
        ensures
            self@.dom() == self.key_view().to_set(),
            self@.dom().finite(),
            self@.dom().len() == self.entries@.len(),
    {
        assert(self@.dom() =~= self.key_view().to_set());
        self.key_view().unique_seq_to_set();
    }

    /// An empty map.
    pub fn new() -> (r: Self)
        ensures
            r@ == Map::<Seq<char>, V>::empty(),
    {
        let r = StrMap { entries: Vec::new() };
        assert(r@ =~= Map::<Seq<char>, V>::empty());
        r
    }

    /// Number of keys.
    pub fn len(&self) -> (r: usize)
        ensures
            self@.dom().finite(),
            r == self@.dom().len(),
    {
        proof {
            use_type_invariant(self);
            self.lemma_len();
        }
        self.entries.len()
    }

    fn find(&self, k: &String) -> (r: Option<usize>)
        ensures
            match r {
                Some(i) => i < self.entries@.len() && self.entries@[i as int].0@ == k@,
                None => !self@.dom().contains(k@),
            },
    {
        let mut i: usize = 0;
        while i < self.entries.len()
            invariant
                i <= self.entries@.len(),
                forall|j: int| 0 <= j < i ==> self.entries@[j].0@ != k@,
            decreases self.entries@.len() - i,
        {
            if self.entries[i].0 == *k {
                return Some(i);
            }
            i = i + 1;
        }
        proof {
            if self.key_view().contains(k@) {
                let j = choose|j: int| 0 <= j < self.key_view().len() && self.key_view()[j] == k@;
                assert(self.entries@[j].0@ == k@);
            }
        }
        None
    }

    /// Whether the key is present.
    pub fn contains_key(&self, k: &String) -> (r: bool)
        ensures
            r == self@.dom().contains(k@),
    {
        proof {
            use_type_invariant(self);
        }
        match self.find(k) {
            Some(i) => {
                proof {
                    self.lemma_index_of(i as int);
                }
                true
            },
            None => false,
        }
    }

    /// The value stored under the key.
    pub fn get(&self, k: &String) -> (r: Option<&V>)
        ensures
            r is Some == self@.dom().contains(k@),
            r matches Some(v) ==> *v == self@[k@],
    {
        proof {
            use_type_invariant(self);
        }
        match self.find(k) {
            Some(i) => {
                proof {
                    self.lemma_index_of(i as int);
                }
                Some(&self.entries[i].1)
            },
            None => None,
        }
    }

    /// Stores the value under the key, replacing any earlier value.
    pub fn insert(&mut self, k: String, v: V)
        ensures
            final(self)@ == old(self)@.insert(k@, v),
    {
        proof {
            use_type_invariant(&*self);
        }
        let ghost old_self = *self;
        let ghost kk = k@;
        match self.find(&k) {
            Some(i) => {
                proof {
                    old_self.lemma_index_of(i as int);
                }
                let mut es: Vec<(String, V)> = Vec::new();
                std::mem::swap(&mut es, &mut self.entries);
                es.set(i, (k, v));
                proof {
                    assert(strs_of_entries(es@) =~= old_self.key_view());
                }
                self.entries = es;
                proof {
                    assert(self.key_view() =~= old_self.key_view());
                    assert forall|key: Seq<char>|
                        #![trigger self@.dom().contains(key)]
                        self@.dom().contains(key) == old_self@.insert(kk, v).dom().contains(key)
                        && (self@.dom().contains(key) ==> self@[key] == old_self@.insert(
                            kk,
                            v,
                        )[key]) by {
                        if self.key_view().contains(key) {
                            let j = self.key_view().index_of(key);
                            old_self.lemma_index_of(j);
                            self.lemma_index_of(j);
                        }
                    }
                    assert(self@ =~= old_self@.insert(kk, v));
                }
            },
            None => {
                let mut es: Vec<(String, V)> = Vec::new();
                std::mem::swap(&mut es, &mut self.entries);
                es.push((k, v));
                proof {
                    assert(strs_of_entries(es@) =~= old_self.key_view().push(kk));
                    assert(!old_self.key_view().contains(kk));
                }
                self.entries = es;
                proof {
                    let n = old_self.entries@.len() as int;
                    assert(self.key_view() =~= old_self.key_view().push(kk));
                    assert(!old_self.key_view().contains(kk));
                    assert(self.key_view().no_duplicates());
                    self.lemma_index_of(n);
                    assert forall|key: Seq<char>|
                        #![trigger self@.dom().contains(key)]
                        self@.dom().contains(key) == old_self@.insert(kk, v).dom().contains(key)
                        && (self@.dom().contains(key) ==> self@[key] == old_self@.insert(
                            kk,
                            v,
                        )[key]) by {
                        if key != kk && self.key_view().contains(key) {
                            let j = self.key_view().index_of(key);
                            assert(j != n);
                            assert(old_self.key_view()[j] == key);
                            old_self.lemma_index_of(j);
                            self.lemma_index_of(j);
                        }
                        if key != kk && old_self.key_view().contains(key) {
                            let j = old_self.key_view().index_of(key);
                            assert(self.key_view()[j] == key);
                        }
                    }
                    assert(self@ =~= old_self@.insert(kk, v));
                }
            },
        }
    }

    /// Removes the key and hands back its value.
    pub fn remove(&mut self, k: &String) -> (r: Option<V>)
        ensures
            final(self)@ == old(self)@.remove(k@),
            r is Some == old(self)@.dom().contains(k@),
            r matches Some(v) ==> v == old(self)@[k@],
    {
        proof {
            use_type_invariant(&*self);
        }
        let ghost old_self = *self;
        let ghost kk = k@;
        match self.find(k) {
            Some(i) => {
                proof {
                    old_self.lemma_index_of(i as int);
                }
                let mut es: Vec<(String, V)> = Vec::new();
                std::mem::swap(&mut es, &mut self.entries);
                let (_key, value) = es.remove(i);
                proof {
                    assert(strs_of_entries(es@) =~= old_self.key_view().remove(i as int));
                }
                self.entries = es;
                proof {
                    let ii = i as int;
                    assert(self.key_view() =~= old_self.key_view().remove(ii));
                    assert forall|key: Seq<char>|
                        #![trigger self@.dom().contains(key)]
                        self@.dom().contains(key) == old_self@.remove(kk).dom().contains(key) && (
                        self@.dom().contains(key) ==> self@[key] == old_self@.remove(kk)[key]) by {
                        if self.key_view().contains(key) {
                            let j = self.key_view().index_of(key);
                            self.lemma_index_of(j);
                            if j < ii {
                                old_self.lemma_index_of(j);
                            } else {
                                old_self.lemma_index_of(j + 1);
                            }
                        }
                        if old_self.key_view().contains(key) && key != kk {
                            let j = old_self.key_view().index_of(key);
                            old_self.lemma_index_of(j);
                            if j < ii {
                                assert(self.key_view()[j] == key);
                            } else {
                                assert(j != ii);
                                assert(self.key_view()[j - 1] == key);
                            }
                        }
                    }
                    assert(self@ =~= old_self@.remove(kk));
                }
                Some(value)
            },
            None => {
                proof {
                    assert(self@ =~= old_self@.remove(kk));
                }
                None
            },
        }
    }
}

impl StrMap<String> {
    /// A copy of a map from strings to strings.
    pub fn duplicate(&self) -> (r: Self)
        ensures
            r@ == self@,
    {
        proof {
            use_type_invariant(self);
        }
        let mut out: Vec<(String, String)> = Vec::new();
        let mut i: usize = 0;
        while i < self.entries.len()
            invariant
                i <= self.entries@.len(),
                out@.len() == i,
                forall|j: int| 0 <= j < i ==> #[trigger] out@[j] == self.entries@[j],
            decreases self.entries@.len() - i,
        {
            let k = self.entries[i].0.clone();
            let v = self.entries[i].1.clone();
            out.push((k, v));
            i = i + 1;
        }
        assert(out@ =~= self.entries@);
        StrMap { entries: out }
    }
}

/// A map from `u64` keys to `u64` values; every key occurs once.
pub struct U64Map {
    entries: Vec<(u64, u64)>,
}

impl U64Map {
    spec fn keys_of(es: Seq<(u64, u64)>) -> Seq<u64> {
        es.map_values(|e: (u64, u64)| e.0)
    }

    #[verifier::type_invariant]
    closed spec fn keys_unique(self) -> bool {
        Self::keys_of(self.entries@).no_duplicates()
    }

    /// The contents as a map.
    pub closed spec fn view(&self) -> Map<u64, u64> {
        Map::new(
            |k: u64| Self::keys_of(self.entries@).contains(k),
            |k: u64| self.entries@[Self::keys_of(self.entries@).index_of(k)].1,
        )
    }

    proof fn lemma_index_of(&self, i: int)
        requires
            Self::keys_of(self.entries@).no_duplicates(),
            0 <= i < self.entries@.len(),
        ensures
            self@.dom().contains(self.entries@[i].0),
            self@[self.entries@[i].0] == self.entries@[i].1,
    {
        let kv = Self::keys_of(self.entries@);
        assert(kv[i] == self.entries@[i].0);
        assert(kv.contains(kv[i]));
        let j = kv.index_of(kv[i]);
        assert(0 <= j < kv.len() && kv[j] == kv[i]);
    }

    /// An empty map.
    pub fn new() -> (r: Self)
        ensures
            r@ == Map::<u64, u64>::empty(),
    {
        let r = U64Map { entries: Vec::new() };
        assert(r@ =~= Map::<u64, u64>::empty());
        r
    }

    fn find(&self, k: u64) -> (r: Option<usize>)
        ensures
            match r {
                Some(i) => i < self.entries@.len() && self.entries@[i as int].0 == k,
                None => !self@.dom().contains(k),
            },
    {
        let mut i: usize = 0;
        while i < self.entries.len()
            invariant
                i <= self.entries@.len(),
                forall|j: int| 0 <= j < i ==> self.entries@[j].0 != k,
            decreases self.entries@.len() - i,
        {
            if self.entries[i].0 == k {
                return Some(i);
            }
            i = i + 1;
        }
        proof {
            let kv = Self::keys_of(self.entries@);
            if kv.contains(k) {
                let j = choose|j: int| 0 <= j < kv.len() && kv[j] == k;
                assert(self.entries@[j].0 == k);
            }
        }
        None
    }

    /// The value under a key, or zero.
    pub fn get_or_zero(&self, k: u64) -> (r: u64)
        ensures
            r == if self@.dom().contains(k) {
                self@[k]
            } else {
                0
            },
    {
        proof {
            use_type_invariant(self);
        }
        match self.find(k) {
            Some(i) => {
                proof {
                    self.lemma_index_of(i as int);
                }
                self.entries[i].1
            },
            None => 0,
        }
    }

    /// Stores a value under a key.
    pub fn insert(&mut self, k: u64, v: u64)
        ensures
            final(self)@ == old(self)@.insert(k, v),
    {
        proof {
            use_type_invariant(&*self);
        }
        let ghost old_self = *self;
        let found = self.find(k);
        let mut es: Vec<(u64, u64)> = Vec::new();
        std::mem::swap(&mut es, &mut self.entries);
        match found {
            Some(i) => {
                proof {
                    old_self.lemma_index_of(i as int);
                }
                es.set(i, (k, v));
                proof {
                    assert(Self::keys_of(es@) =~= Self::keys_of(old_self.entries@));
                }
                self.entries = es;
                proof {
                    self.lemma_index_of(i as int);
                    assert forall|key: u64|
                        #![trigger self@.dom().contains(key)]
                        self@.dom().contains(key) == old_self@.insert(k, v).dom().contains(key)
                        && (self@.dom().contains(key) ==> self@[key] == old_self@.insert(
                            k,
                            v,
                        )[key]) by {
                        let kv = Self::keys_of(self.entries@);
                        if kv.contains(key) && key != k {
                            let j = kv.index_of(key);
                            assert(kv[i as int] == k);
                            assert(j != i as int);
                            assert(self.entries@[j] == old_self.entries@[j]);
                            old_self.lemma_index_of(j);
                            self.lemma_index_of(j);
                        }
                    }
                    assert(self@ =~= old_self@.insert(k, v));
                }
            },
            None => {
                es.push((k, v));
                proof {
                    assert(Self::keys_of(es@) =~= Self::keys_of(old_self.entries@).push(k));
                    assert(!Self::keys_of(old_self.entries@).contains(k));
                }
                self.entries = es;
                proof {
                    let n = old_self.entries@.len() as int;
                    self.lemma_index_of(n);
                    assert forall|key: u64|
                        #![trigger self@.dom().contains(key)]
                        self@.dom().contains(key) == old_self@.insert(k, v).dom().contains(key)
                        && (self@.dom().contains(key) ==> self@[key] == old_self@.insert(
                            k,
                            v,
                        )[key]) by {
                        let kv = Self::keys_of(self.entries@);
                        let okv = Self::keys_of(old_self.entries@);
                        if key != k && kv.contains(key) {
                            let j = kv.index_of(key);
                            assert(j != n);
                            assert(okv[j] == key);
                            old_self.lemma_index_of(j);
                            self.lemma_index_of(j);
                        }
                        if key != k && okv.contains(key) {
                            let j = okv.index_of(key);
                            assert(kv[j] == key);
                        }
                    }
                    assert(self@ =~= old_self@.insert(k, v));
                }
            },
        }
    }
}

/// An ordered list of strings.
pub struct StrList {
    items: Vec<String>,
}

impl StrList {
    /// The character sequences, in order.
    pub closed spec fn view(&self) -> Seq<Seq<char>> {
        strs(self.items@)
    }

    /// An empty list.
    pub fn new() -> (r: Self)
        ensures
            r@ == Seq::<Seq<char>>::empty(),
    {
        let r = StrList { items: Vec::new() };
        assert(r@ =~= Seq::<Seq<char>>::empty());
        r
    }

    /// Number of strings.
    pub fn len(&self) -> (r: usize)
        ensures
            r == self@.len(),
    {
        self.items.len()
    }

    /// The string at a position.
    pub fn get(&self, i: usize) -> (r: &String)
        requires
            i < self@.len(),
        ensures
            r@ == self@[i as int],
    {
        &self.items[i]
    }

    /// Position of the first occurrence, if any.
    pub fn first_index_of(&self, s: &String) -> (r: Option<usize>)
        ensures
            match r {
                Some(i) => i < self@.len() && self@[i as int] == s@ && forall|j: int|
                    0 <= j < i ==> self@[j] != s@,
                None => !self@.contains(s@),
            },
    {
        let mut i: usize = 0;
        while i < self.items.len()
            invariant
                i <= self@.len(),
                forall|j: int| 0 <= j < i ==> self@[j] != s@,
            decreases self@.len() - i,
        {
            if self.items[i] == *s {
                return Some(i);
            }
            i = i + 1;
        }
        None
    }

    /// Whether the string occurs.
    pub fn contains(&self, s: &String) -> (r: bool)
        ensures
            r == self@.contains(s@),
    {
        self.first_index_of(s).is_some()
    }

    /// Appends a string.
    pub fn push(&mut self, s: String)
        ensures
            final(self)@ == old(self)@.push(s@),
    {
        self.items.push(s);
        proof {
            assert(self@ =~= old(self)@.push(s@));
        }
    }

    /// Appends a string unless it already occurs.
    pub fn push_unique(&mut self, s: String)
        ensures
            final(self)@ == if old(self)@.contains(s@) {
                old(self)@
            } else {
                old(self)@.push(s@)
            },
    {
        if !self.contains(&s) {
            self.push(s);
        }
    }

    /// Removes the first occurrence of a string, if any.
    pub fn remove_first(&mut self, s: &String)
        ensures
            old(self)@.contains(s@) ==> final(self)@ == old(self)@.remove(
                old(self)@.index_of_first(s@)->0,
            ),
            !old(self)@.contains(s@) ==> final(self)@ == old(self)@,
    {
        proof {
            old(self)@.index_of_first_ensures(s@);
        }
        match self.first_index_of(s) {
            Some(i) => {
                self.items.remove(i);
                proof {
                    assert(self@ =~= old(self)@.remove(i as int));
                }
            },
            None => {},
        }
    }

    /// Removes every occurrence of a string, keeping the order of the rest.
    pub fn remove_all(&mut self, s: &String)
        ensures
            final(self)@ == old(self)@.filter(other_than(s@)),
    {
        let ghost pred = other_than(s@);
        let mut kept: Vec<String> = Vec::new();
        let mut i: usize = 0;
        while i < self.items.len()
            invariant
                i <= self@.len(),
                strs(kept@) == self@.take(i as int).filter(pred),
                pred == other_than(s@),
            decreases self@.len() - i,
        {
            proof {
                assert(self@.take(i + 1) =~= self@.take(i as int).push(self@[i as int]));
                self@.take(i as int).lemma_filter_push(self@[i as int], pred);
            }
            if self.items[i] != *s {
                kept.push(self.items[i].clone());
                proof {
                    assert(strs(kept@) =~= strs(kept@).drop_last().push(self@[i as int]));
                }
            }
            i = i + 1;
        }
        proof {
            assert(self@.take(self@.len() as int) =~= self@);
        }
        self.items = kept;
    }

    /// The strings, copied into a vector.
    pub fn to_vec(&self) -> (r: Vec<String>)
        ensures
            strs(r@) == self@,
    {
        copy_strings(&self.items)
    }
}

} // verus!
