//! The metadata of a document: a finite map from text to text, kept as a
//! list of entries in which no key occurs twice.

use vstd::prelude::*;

verus! {

/// The entries of a list as pairs of texts.
pub open spec fn pairs_view(entries: Seq<(String, String)>) -> Seq<(Seq<char>, Seq<char>)> {
    entries.map_values(|e: (String, String)| (e.0@, e.1@))
}

/// No key occurs twice among the pairs.
pub open spec fn distinct_keys(pairs: Seq<(Seq<char>, Seq<char>)>) -> bool {
    forall|i: int, j: int|
        0 <= i < j < pairs.len() ==> (#[trigger] pairs[i]).0 != (#[trigger] pairs[j]).0
}

/// `i` is a place in `pairs` at which `key` stands.
pub open spec fn key_at(pairs: Seq<(Seq<char>, Seq<char>)>, key: Seq<char>, i: int) -> bool {
    0 <= i < pairs.len() && pairs[i].0 == key
}

/// The map that a list of pairs with distinct keys stands for.
pub open spec fn map_of(pairs: Seq<(Seq<char>, Seq<char>)>) -> Map<Seq<char>, Seq<char>> {
    Map::new(
        |key: Seq<char>| exists|i: int| key_at(pairs, key, i),
        |key: Seq<char>| pairs[choose|i: int| key_at(pairs, key, i)].1,
    )
}

/// The texts of a list of strings, in the order of the list.
pub open spec fn texts_view(texts: Seq<String>) -> Seq<Seq<char>> {
    texts.map_values(|t: String| t@)
}

/// In a list with distinct keys, the map holds under each key the value
/// that stands beside it.
pub proof fn lemma_map_of_entry(pairs: Seq<(Seq<char>, Seq<char>)>, i: int)
    requires
        distinct_keys(pairs),
        0 <= i < pairs.len(),
    ensures
        map_of(pairs).dom().contains(pairs[i].0),
        map_of(pairs)[pairs[i].0] == pairs[i].1,
{
    let key = pairs[i].0;
    assert(key_at(pairs, key, i));
    let j = choose|j: int| key_at(pairs, key, j);
    if j < i {
        assert(pairs[j].0 != pairs[i].0);
    } else if i < j {
        assert(pairs[i].0 != pairs[j].0);
    }
}

/// Putting a pair in the place of one with the same key stores the new
/// value under that key and leaves the rest of the map alone.
pub proof fn lemma_map_of_replace(
    pairs: Seq<(Seq<char>, Seq<char>)>,
    i: int,
    value: Seq<char>,
)
    requires
        distinct_keys(pairs),
        0 <= i < pairs.len(),
    ensures
        distinct_keys(pairs.update(i, (pairs[i].0, value))),
        map_of(pairs.update(i, (pairs[i].0, value))) == map_of(pairs).insert(pairs[i].0, value),
{
    let key = pairs[i].0;
    let after = pairs.update(i, (key, value));
    assert forall|a: int, b: int| 0 <= a < b < after.len() implies (#[trigger] after[a]).0 != (
    #[trigger] after[b]).0 by {
        assert(after[a].0 == pairs[a].0);
        assert(after[b].0 == pairs[b].0);
        assert(pairs[a].0 != pairs[b].0);
    }
    let want = map_of(pairs).insert(key, value);
    assert forall|k: Seq<char>| map_of(after).dom().contains(k) == want.dom().contains(k) by {
        if map_of(after).dom().contains(k) {
            let j = choose|j: int| key_at(after, k, j);
            assert(key_at(pairs, k, j));
        }
        if want.dom().contains(k) {
            if k == key {
                assert(key_at(after, k, i));
            } else {
                let j = choose|j: int| key_at(pairs, k, j);
                assert(key_at(after, k, j));
            }
        }
    }
    assert forall|k: Seq<char>| map_of(after).dom().contains(k) implies map_of(after)[k]
        == want[k] by {
        let j = choose|j: int| key_at(after, k, j);
        lemma_map_of_entry(after, j);
        if j != i {
            lemma_map_of_entry(pairs, j);
        }
    }
    assert(map_of(after) =~= want);
}

/// Adding a pair under a key that the list does not hold stores the value
/// under that key and leaves the rest of the map alone.
pub proof fn lemma_map_of_push(
    pairs: Seq<(Seq<char>, Seq<char>)>,
    key: Seq<char>,
    value: Seq<char>,
)
    requires
        distinct_keys(pairs),
        forall|i: int| 0 <= i < pairs.len() ==> (#[trigger] pairs[i]).0 != key,
    ensures
        distinct_keys(pairs.push((key, value))),
        map_of(pairs.push((key, value))) == map_of(pairs).insert(key, value),
{
    let after = pairs.push((key, value));
    let last = pairs.len() as int;
    assert forall|a: int, b: int| 0 <= a < b < after.len() implies (#[trigger] after[a]).0 != (
    #[trigger] after[b]).0 by {
        assert(after[a] == pairs[a]);
        if b < last {
            assert(after[b] == pairs[b]);
            assert(pairs[a].0 != pairs[b].0);
        }
    }
    let want = map_of(pairs).insert(key, value);
    assert forall|k: Seq<char>| map_of(after).dom().contains(k) == want.dom().contains(k) by {
        if map_of(after).dom().contains(k) {
            let j = choose|j: int| key_at(after, k, j);
            if j < last {
                assert(key_at(pairs, k, j));
            }
        }
        if want.dom().contains(k) {
            if k == key {
                assert(key_at(after, k, last));
            } else {
                let j = choose|j: int| key_at(pairs, k, j);
                assert(key_at(after, k, j));
            }
        }
    }
    assert forall|k: Seq<char>| map_of(after).dom().contains(k) implies map_of(after)[k]
        == want[k] by {
        let j = choose|j: int| key_at(after, k, j);
        lemma_map_of_entry(after, j);
        if j < last {
            assert(after[j] == pairs[j]);
            lemma_map_of_entry(pairs, j);
        }
    }
    assert(map_of(after) =~= want);
}

/// A list with distinct keys stands for a finite map with as many keys as
/// the list has pairs.
pub proof fn lemma_map_of_len(pairs: Seq<(Seq<char>, Seq<char>)>)
    requires
        distinct_keys(pairs),
    ensures
        map_of(pairs).dom().finite(),
        map_of(pairs).dom().len() == pairs.len(),
    decreases pairs.len(),
{
    if pairs.len() == 0 {
        assert(map_of(pairs).dom() =~= Set::<Seq<char>>::empty());
    } else {
        let front = pairs.drop_last();
        let last = pairs.last();
        assert forall|a: int, b: int| 0 <= a < b < front.len() implies (#[trigger] front[a]).0 != (
        #[trigger] front[b]).0 by {
            assert(front[a] == pairs[a]);
            assert(front[b] == pairs[b]);
        }
        assert forall|i: int| 0 <= i < front.len() implies (#[trigger] front[i]).0 != last.0 by {
            assert(front[i] == pairs[i]);
            assert(pairs[i].0 != pairs[pairs.len() - 1].0);
        }
        lemma_map_of_len(front);
        lemma_map_of_push(front, last.0, last.1);
        assert(front.push((last.0, last.1)) =~= pairs);
        if map_of(front).dom().contains(last.0) {
            let j = choose|j: int| key_at(front, last.0, j);
            assert(front[j].0 == last.0);
        }
        assert(map_of(pairs).dom() =~= map_of(front).dom().insert(last.0));
    }
}

/// Metadata of a document: text values under text keys. The order in which
/// the entries were put in carries no meaning.
#[derive(Debug)]
pub struct Metadata {
    entries: Vec<(String, String)>,
}

impl View for Metadata {
    type V = Map<Seq<char>, Seq<char>>;

    closed spec fn view(&self) -> Map<Seq<char>, Seq<char>> {
        map_of(pairs_view(self.entries@))
    }
}

impl Metadata {
    /// No key occurs twice among the entries.
    #[verifier::type_invariant]
    pub closed spec fn well_formed(&self) -> bool {
        distinct_keys(pairs_view(self.entries@))
    }

    /// Metadata without any entry.
    pub fn new() -> (m: Self)
        ensures
            m@ == Map::<Seq<char>, Seq<char>>::empty(),
    {
        let m = Metadata { entries: Vec::new() };
        proof {
            assert(pairs_view(m.entries@) =~= Seq::empty());
            assert(m@ =~= Map::<Seq<char>, Seq<char>>::empty());
        }
        m
    }

    /// The place of `key` among the entries, if it has one.
    fn position(&self, key: &String) -> (place: Option<usize>)
        ensures
            match place {
                Some(i) => key_at(pairs_view(self.entries@), key@, i as int),
                None => forall|i: int|
                    0 <= i < self.entries@.len() ==> (#[trigger] pairs_view(self.entries@)[i]).0
                        != key@,
            },
    {
        let mut i: usize = 0;
        while i < self.entries.len()
            invariant
                i <= self.entries@.len(),
                forall|j: int| 0 <= j < i ==> (#[trigger] pairs_view(self.entries@)[j]).0 != key@,
            decreases self.entries@.len() - i,
        {
            if self.entries[i].0 == *key {
                return Some(i);
            }
            i += 1;
        }
        None
    }

    /// Stores `value` under `key`, in the place of the value that stood
    /// there before, if there was one.
    pub fn insert(&mut self, key: String, value: String)
        ensures
            final(self)@ == old(self)@.insert(key@, value@),
    {
        proof {
            use_type_invariant(&*self);
        }
        let place = self.position(&key);
        let mut entries: Vec<(String, String)> = Vec::new();
        core::mem::swap(&mut entries, &mut self.entries);
        let ghost before = pairs_view(entries@);
        match place {
            Some(i) => {
                entries[i] = (key, value);
                proof {
                    lemma_map_of_replace(before, i as int, value@);
                    assert(pairs_view(entries@) =~= before.update(i as int, (key@, value@)));
                }
            },
            None => {
                entries.push((key, value));
                proof {
                    lemma_map_of_push(before, key@, value@);
                    assert(pairs_view(entries@) =~= before.push((key@, value@)));
                }
            },
        }
        self.entries = entries;
    }

    /// The value stored under `key`, if there is one.
    pub fn get(&self, key: &String) -> (value: Option<&String>)
        ensures
            match value {
                Some(v) => self@.dom().contains(key@) && self@[key@] == v@,
                None => !self@.dom().contains(key@),
            },
    {
        proof {
            use_type_invariant(self);
        }
        match self.position(key) {
            Some(i) => {
                proof {
                    lemma_map_of_entry(pairs_view(self.entries@), i as int);
                }
                Some(&self.entries[i].1)
            },
            None => {
                proof {
                    let pairs = pairs_view(self.entries@);
                    if self@.dom().contains(key@) {
                        let j = choose|j: int| key_at(pairs, key@, j);
                        assert(pairs[j].0 == key@);
                    }
                }
                None
            },
        }
    }

    /// Number of keys.
    pub fn len(&self) -> (n: usize)
        ensures
            self@.dom().finite(),
            n == self@.dom().len(),
    {
        proof {
            use_type_invariant(self);
            lemma_map_of_len(pairs_view(self.entries@));
        }
        self.entries.len()
    }

    /// The keys, each once, in no order that carries meaning.
    pub fn keys(&self) -> (keys: Vec<String>)
        ensures
            keys@.len() == self@.dom().len(),
            texts_view(keys@).no_duplicates(),
            forall|key: Seq<char>| texts_view(keys@).contains(key) <==> self@.dom().contains(key),
    {
        proof {
            use_type_invariant(self);
            lemma_map_of_len(pairs_view(self.entries@));
        }
        let ghost pairs = pairs_view(self.entries@);
        let mut keys: Vec<String> = Vec::new();
        let mut i: usize = 0;
        while i < self.entries.len()
            invariant
                i <= self.entries@.len(),
                pairs == pairs_view(self.entries@),
                keys@.len() == i,
                forall|j: int| 0 <= j < i ==> (#[trigger] texts_view(keys@)[j]) == pairs[j].0,
            decreases self.entries@.len() - i,
        {
            let key = self.entries[i].0.clone();
            let ghost before = keys@;
            keys.push(key);
            proof {
                assert(pairs[i as int].0 == key@);
                assert forall|j: int| 0 <= j < i + 1 implies (#[trigger] texts_view(keys@)[j])
                    == pairs[j].0 by {
                    if j < i {
                        assert(keys@[j] == before[j]);
                        assert(texts_view(before)[j] == pairs[j].0);
                    }
                }
            }
            i += 1;
        }
        proof {
            let texts = texts_view(keys@);
            assert forall|a: int, b: int| 0 <= a < texts.len() && 0 <= b < texts.len() && a
                != b implies texts[a] != texts[b] by {
                if a < b {
                    assert(pairs[a].0 != pairs[b].0);
                } else {
                    assert(pairs[b].0 != pairs[a].0);
                }
            }
            assert forall|key: Seq<char>| texts.contains(key) <==> self@.dom().contains(key) by {
                if texts.contains(key) {
                    let j = choose|j: int| 0 <= j < texts.len() && texts[j] == key;
                    assert(key_at(pairs, key, j));
                }
                if self@.dom().contains(key) {
                    let j = choose|j: int| key_at(pairs, key, j);
                    assert(texts[j] == key);
                }
            }
        }
        keys
    }

    /// The entries as a list of pairs of key and value, each key once.
    pub fn entries(&self) -> (entries: &Vec<(String, String)>)
        ensures
            distinct_keys(pairs_view(entries@)),
            map_of(pairs_view(entries@)) == self@,
            entries@.len() == self@.dom().len(),
    {
        proof {
            use_type_invariant(self);
            lemma_map_of_len(pairs_view(self.entries@));
        }
        &self.entries
    }
}

} // verus!
