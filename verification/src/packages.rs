//! A map from crate names to package names, kept as a list of pairs in which
//! no crate name occurs twice.

use vstd::prelude::*;

verus! {

/// The map that a list of pairs stands for. Where a key occurs more than
/// once, the last pair with it counts.
pub open spec fn map_of(pairs: Seq<(String, String)>) -> Map<Seq<char>, Seq<char>>
    decreases pairs.len(),
{
    if pairs.len() == 0 {
        Map::empty()
    } else {
        map_of(pairs.drop_last()).insert(pairs.last().0@, pairs.last().1@)
    }
}

/// No key occurs in two pairs.
pub open spec fn distinct_keys(pairs: Seq<(String, String)>) -> bool {
    forall|i: int, j: int| 0 <= i < j < pairs.len() ==> pairs[i].0@ != pairs[j].0@
}

/// The keys of `map_of(pairs)` are the first parts of the pairs.
pub proof fn lemma_map_of_keys(pairs: Seq<(String, String)>, key: Seq<char>)
    ensures
        map_of(pairs).contains_key(key) <==> exists|i: int|
            0 <= i < pairs.len() && #[trigger] pairs[i].0@ == key,
    decreases pairs.len(),
{
    if pairs.len() > 0 {
        let before = pairs.drop_last();
        lemma_map_of_keys(before, key);
        if map_of(pairs).contains_key(key) {
            if pairs.last().0@ == key {
                assert(pairs[pairs.len() - 1].0@ == key);
            } else {
                let i = choose|i: int| 0 <= i < before.len() && #[trigger] before[i].0@ == key;
                assert(pairs[i].0@ == key);
            }
        }
        if exists|i: int| 0 <= i < pairs.len() && #[trigger] pairs[i].0@ == key {
            let i = choose|i: int| 0 <= i < pairs.len() && #[trigger] pairs[i].0@ == key;
            if i < pairs.len() - 1 {
                assert(before[i].0@ == key);
            }
        }
    }
}

/// With distinct keys, each pair's key maps to that pair's value.
pub proof fn lemma_map_of_value(pairs: Seq<(String, String)>, i: int)
    requires
        distinct_keys(pairs),
        0 <= i < pairs.len(),
    ensures
        map_of(pairs).contains_key(pairs[i].0@),
        map_of(pairs)[pairs[i].0@] == pairs[i].1@,
    decreases pairs.len(),
{
    if i < pairs.len() - 1 {
        let before = pairs.drop_last();
        assert(distinct_keys(before)) by {
            assert forall|a: int, b: int| 0 <= a < b < before.len() implies before[a].0@
                != before[b].0@ by {
                assert(pairs[a].0@ != pairs[b].0@);
            }
        }
        lemma_map_of_value(before, i);
        assert(before[i] == pairs[i]);
        assert(pairs[i].0@ != pairs[pairs.len() - 1].0@);
    }
}

/// With distinct keys, the map has as many keys as the list has pairs.
pub proof fn lemma_map_of_len(pairs: Seq<(String, String)>)
    requires
        distinct_keys(pairs),
    ensures
        map_of(pairs).dom().finite(),
        map_of(pairs).dom().len() == pairs.len(),
    decreases pairs.len(),
{
    if pairs.len() > 0 {
        let before = pairs.drop_last();
        assert(distinct_keys(before)) by {
            assert forall|a: int, b: int| 0 <= a < b < before.len() implies before[a].0@
                != before[b].0@ by {
                assert(pairs[a].0@ != pairs[b].0@);
            }
        }
        lemma_map_of_len(before);
        let key = pairs.last().0@;
        assert(!map_of(before).contains_key(key)) by {
            lemma_map_of_keys(before, key);
            if exists|i: int| 0 <= i < before.len() && #[trigger] before[i].0@ == key {
                let i = choose|i: int| 0 <= i < before.len() && #[trigger] before[i].0@ == key;
                assert(pairs[i].0@ != pairs[pairs.len() - 1].0@);
            }
        }
        assert(map_of(pairs).dom() =~= map_of(before).dom().insert(key));
    } else {
        assert(map_of(pairs).dom() =~= Set::<Seq<char>>::empty());
    }
}

/// Replacing the value of a pair replaces the value of its key.
pub proof fn lemma_map_of_update(pairs: Seq<(String, String)>, i: int, pair: (String, String))
    requires
        distinct_keys(pairs),
        0 <= i < pairs.len(),
        pair.0@ == pairs[i].0@,
    ensures
        distinct_keys(pairs.update(i, pair)),
        map_of(pairs.update(i, pair)) == map_of(pairs).insert(pair.0@, pair.1@),
{
    let after = pairs.update(i, pair);
    assert(distinct_keys(after)) by {
        assert forall|a: int, b: int| 0 <= a < b < after.len() implies after[a].0@
            != after[b].0@ by {
            assert(pairs[a].0@ != pairs[b].0@);
        }
    }
    let want = map_of(pairs).insert(pair.0@, pair.1@);
    assert forall|key: Seq<char>| map_of(after).contains_key(key) <==> want.contains_key(
        key,
    ) by {
        lemma_map_of_keys(after, key);
        lemma_map_of_keys(pairs, key);
        if map_of(after).contains_key(key) {
            let a = choose|a: int| 0 <= a < after.len() && #[trigger] after[a].0@ == key;
            assert(pairs[a].0@ == key);
        }
        if want.contains_key(key) {
            if key == pair.0@ {
                assert(after[i].0@ == key);
            } else {
                let a = choose|a: int| 0 <= a < pairs.len() && #[trigger] pairs[a].0@ == key;
                assert(after[a].0@ == key);
            }
        }
    }
    assert forall|key: Seq<char>| map_of(after).contains_key(key) implies map_of(after)[key]
        == want[key] by {
        lemma_map_of_keys(after, key);
        let a = choose|a: int| 0 <= a < after.len() && #[trigger] after[a].0@ == key;
        lemma_map_of_value(after, a);
        lemma_map_of_value(pairs, a);
        if a != i {
            assert(pairs[a].0@ != pairs[i].0@);
        }
    }
    assert(map_of(after) =~= want);
}

/// Package names by crate name.
#[derive(Debug)]
pub struct PackageMap {
    entries: Vec<(String, String)>,
}

impl View for PackageMap {
    type V = Map<Seq<char>, Seq<char>>;

    closed spec fn view(&self) -> Map<Seq<char>, Seq<char>> {
        map_of(self.entries@)
    }
}

impl Clone for PackageMap {
    fn clone(&self) -> (copy: PackageMap)
        ensures
            copy@ == self@,
    {
        proof {
            use_type_invariant(self);
        }
        let mut entries: Vec<(String, String)> = Vec::new();
        let mut i: usize = 0;
        while i < self.entries.len()
            invariant
                i <= self.entries@.len(),
                entries@ == self.entries@.subrange(0, i as int),
            decreases self.entries@.len() - i,
        {
            let key = self.entries[i].0.clone();
            let value = self.entries[i].1.clone();
            entries.push((key, value));
            proof {
                assert(entries@ =~= self.entries@.subrange(0, i + 1));
            }
            i = i + 1;
        }
        proof {
            assert(entries@ =~= self.entries@);
        }
        PackageMap { entries }
    }
}

impl PackageMap {
    #[verifier::type_invariant]
    spec fn well_formed(&self) -> bool {
        distinct_keys(self.entries@)
    }

    /// The empty map.
    pub fn new() -> (map: PackageMap)
        ensures
            map@ == Map::<Seq<char>, Seq<char>>::empty(),
    {
        PackageMap { entries: Vec::new() }
    }

    /// Where `key` stands in the list, if it does.
    fn position(&self, key: &String) -> (at: Option<usize>)
        ensures
            match at {
                Some(i) => i < self.entries@.len() && self.entries@[i as int].0@ == key@,
                None => !self@.contains_key(key@),
            },
    {
        let mut i: usize = 0;
        while i < self.entries.len()
            invariant
                i <= self.entries@.len(),
                forall|j: int| 0 <= j < i ==> (#[trigger] self.entries@[j]).0@ != key@,
            decreases self.entries@.len() - i,
        {
            if self.entries[i].0 == *key {
                return Some(i);
            }
            i = i + 1;
        }
        proof {
            lemma_map_of_keys(self.entries@, key@);
        }
        None
    }

    /// Whether `key` has a value.
    pub fn contains_key(&self, key: &str) -> (found: bool)
        ensures
            found == self@.contains_key(key@),
    {
        let owned = key.to_owned();
        let at = self.position(&owned);
        proof {
            if let Some(i) = at {
                lemma_map_of_keys(self.entries@, key@);
            }
        }
        at.is_some()
    }

    /// The value of `key`, if it has one.
    pub fn get(&self, key: &str) -> (value: Option<&String>)
        ensures
            match value {
                Some(v) => self@.contains_key(key@) && v@ == self@[key@],
                None => !self@.contains_key(key@),
            },
    {
        let owned = key.to_owned();
        match self.position(&owned) {
            Some(i) => {
                proof {
                    use_type_invariant(self);
                    lemma_map_of_value(self.entries@, i as int);
                }
                Some(&self.entries[i].1)
            },
            None => None,
        }
    }

    /// Gives `key` the value `value`, in place of any value it had.
    pub fn insert(&mut self, key: String, value: String)
        ensures
            final(self)@ == old(self)@.insert(key@, value@),
    {
        proof {
            use_type_invariant(&*self);
        }
        let ghost before = self.entries@;
        let at = self.position(&key);
        let mut entries: Vec<(String, String)> = Vec::new();
        std::mem::swap(&mut self.entries, &mut entries);
        match at {
            Some(i) => {
                proof {
                    lemma_map_of_update(before, i as int, (key, value));
                }
                entries.set(i, (key, value));
            },
            None => {
                proof {
                    lemma_map_of_keys(before, key@);
                    assert(before.push((key, value)).drop_last() =~= before);
                }
                entries.push((key, value));
            },
        }
        self.entries = entries;
    }

    /// The number of keys.
    pub fn len(&self) -> (count: usize)
        ensures
            self@.dom().finite(),
            count == self@.dom().len(),
    {
        proof {
            use_type_invariant(self);
            lemma_map_of_len(self.entries@);
        }
        self.entries.len()
    }

    /// The pairs of the map, each key once, in the order in which the keys
    /// were first inserted.
    pub fn entries(&self) -> (pairs: &Vec<(String, String)>)
        ensures
            distinct_keys(pairs@),
            map_of(pairs@) == self@,
    {
        proof {
            use_type_invariant(self);
        }
        &self.entries
    }
}

} // verus!
