//! A map from strings to values, kept as a list of entries with distinct
//! keys and read as a mathematical map from character sequences.
use vstd::prelude::*;
use vstd::string::*;
use crate::text::str_eq;

verus! {

/// No two entries carry the same key.
pub open spec fn keys_distinct<V>(es: Seq<(String, V)>) -> bool {
    forall|i: int, j: int| 0 <= i < j < es.len() ==> (#[trigger] es[i]).0@ != (#[trigger] es[j]).0@
}

/// The map that a list of entries stands for; a later entry wins over an
/// earlier one with the same key.
pub open spec fn map_of<V>(es: Seq<(String, V)>) -> Map<Seq<char>, V>
    decreases es.len(),
{
    if es.len() == 0 {
        Map::empty()
    } else {
        map_of(es.drop_last()).insert(es.last().0@, es.last().1)
    }
}

/// With distinct keys, the map holds exactly the entries of the list.
pub proof fn lemma_map_of_entries<V>(es: Seq<(String, V)>)
    requires
        keys_distinct(es),
    ensures
        forall|i: int|
            0 <= i < es.len() ==> map_of(es).contains_key((#[trigger] es[i]).0@) && map_of(
                es,
            )[es[i].0@] == es[i].1,
        forall|k: Seq<char>| #[trigger]
            map_of(es).contains_key(k) ==> exists|i: int|
                0 <= i < es.len() && (#[trigger] es[i]).0@ == k,
        map_of(es).dom().finite(),
        map_of(es).dom().len() == es.len(),
    decreases es.len(),
{
    if es.len() > 0 {
        let front = es.drop_last();
        assert(keys_distinct(front)) by {
            assert forall|i: int, j: int| 0 <= i < j < front.len() implies (#[trigger] front[i]).0@
                != (#[trigger] front[j]).0@ by {
                assert(front[i] == es[i]);
                assert(front[j] == es[j]);
            }
        }
        lemma_map_of_entries(front);
        let last = es.len() - 1;
        assert forall|i: int| 0 <= i < es.len() implies map_of(es).contains_key(
            (#[trigger] es[i]).0@,
        ) && map_of(es)[es[i].0@] == es[i].1 by {
            if i < last {
                assert(front[i] == es[i]);
                assert(es[i].0@ != es[last].0@);
            }
        }
        assert forall|k: Seq<char>| #[trigger] map_of(es).contains_key(k) implies exists|i: int|
            0 <= i < es.len() && (#[trigger] es[i]).0@ == k by {
            if k == es[last].0@ {
                assert(es[last].0@ == k);
            } else {
                assert(map_of(front).contains_key(k));
                let i = choose|i: int| 0 <= i < front.len() && (#[trigger] front[i]).0@ == k;
                assert(front[i] == es[i]);
                assert(es[i].0@ == k);
            }
        }
        assert(!map_of(front).contains_key(es[last].0@)) by {
            if map_of(front).contains_key(es[last].0@) {
                let i = choose|i: int|
                    0 <= i < front.len() && (#[trigger] front[i]).0@ == es[last].0@;
                assert(front[i] == es[i]);
                assert(es[i].0@ != es[last].0@);
            }
        }
        assert(map_of(es).dom() =~= map_of(front).dom().insert(es[last].0@));
    }
}

/// Taking one entry out of a list with distinct keys takes its key out of
/// the map and leaves the keys distinct.
pub proof fn lemma_map_of_remove<V>(es: Seq<(String, V)>, at: int)
    requires
        keys_distinct(es),
        0 <= at < es.len(),
    ensures
        keys_distinct(es.remove(at)),
        map_of(es.remove(at)) == map_of(es).remove(es[at].0@),
{
    let rest = es.remove(at);
    assert(keys_distinct(rest)) by {
        assert forall|i: int, j: int| 0 <= i < j < rest.len() implies (#[trigger] rest[i]).0@ != (
        #[trigger] rest[j]).0@ by {
            let si = if i < at { i } else { i + 1 };
            let sj = if j < at { j } else { j + 1 };
            assert(rest[i] == es[si]);
            assert(rest[j] == es[sj]);
        }
    }
    lemma_map_of_entries(es);
    lemma_map_of_entries(rest);
    let target = map_of(es).remove(es[at].0@);
    assert forall|k: Seq<char>| map_of(rest).contains_key(k) implies #[trigger] target.contains_key(k)
        && target[k] == map_of(rest)[k] by {
        let i = choose|i: int| 0 <= i < rest.len() && (#[trigger] rest[i]).0@ == k;
        let si = if i < at { i } else { i + 1 };
        assert(rest[i] == es[si]);
        assert(es[si].0@ == k);
        if si < at {
            assert(es[si].0@ != es[at].0@);
        } else {
            assert(es[at].0@ != es[si].0@);
        }
    }
    assert forall|k: Seq<char>| #[trigger] target.contains_key(k) implies map_of(rest).contains_key(
        k,
    ) by {
        let i = choose|i: int| 0 <= i < es.len() && (#[trigger] es[i]).0@ == k;
        assert(i != at);
        let ri = if i < at { i } else { i - 1 };
        assert(rest[ri] == es[i]);
        assert(rest[ri].0@ == k);
    }
    assert(map_of(rest) =~= target);
}

/// A map from strings to values.
#[derive(Debug)]
pub struct StrMap<V> {
    entries: Vec<(String, V)>,
}

impl<V> View for StrMap<V> {
    type V = Map<Seq<char>, V>;

    closed spec fn view(&self) -> Map<Seq<char>, V> {
        map_of(self.entries@)
    }
}

impl<V> StrMap<V> {
    #[verifier::type_invariant]
    spec fn distinct(self) -> bool {
        keys_distinct(self.entries@)
    }

    /// The index of the entry for `key`, if there is one.
    fn position(&self, key: &str) -> (at: Option<usize>)
        ensures
            match at {
                Some(i) => i < self.entries@.len() && self.entries@[i as int].0@ == key@
                    && self@.contains_key(key@) && self@[key@] == self.entries@[i as int].1,
                None => !self@.contains_key(key@),
            },
    {
        proof {
            use_type_invariant(self);
            lemma_map_of_entries(self.entries@);
        }
        let mut i: usize = 0;
        while i < self.entries.len()
            invariant
                i <= self.entries@.len(),
                forall|j: int| 0 <= j < i ==> (#[trigger] self.entries@[j]).0@ != key@,
            decreases self.entries@.len() - i,
        {
            if str_eq(self.entries[i].0.as_str(), key) {
                proof {
                    use_type_invariant(self);
                    lemma_map_of_entries(self.entries@);
                }
                return Some(i);
            }
            i += 1;
        }
        None
    }

    /// The empty map.
    pub fn new() -> (m: Self)
        ensures
            m@ == Map::<Seq<char>, V>::empty(),
    {
        StrMap { entries: Vec::new() }
    }

    /// The number of keys.
    pub fn len(&self) -> (n: usize)
        ensures
            self@.dom().finite(),
            n == self@.dom().len(),
    {
        proof {
            use_type_invariant(self);
            lemma_map_of_entries(self.entries@);
        }
        self.entries.len()
    }

    /// Whether `key` has a value.
    pub fn contains_key(&self, key: &str) -> (r: bool)
        ensures
            r == self@.contains_key(key@),
    {
        self.position(key).is_some()
    }

    /// The value of `key`, if it has one.
    pub fn get(&self, key: &str) -> (r: Option<&V>)
        ensures
            match r {
                Some(v) => self@.contains_key(key@) && *v == self@[key@],
                None => !self@.contains_key(key@),
            },
    {
        match self.position(key) {
            Some(i) => Some(&self.entries[i].1),
            None => None,
        }
    }

    /// Gives `key` the value `value` and hands back the value it had.
    pub fn insert(&mut self, key: String, value: V) -> (prev: Option<V>)
        ensures
            final(self)@ == old(self)@.insert(key@, value),
            match prev {
                Some(v) => old(self)@.contains_key(key@) && v == old(self)@[key@],
                None => !old(self)@.contains_key(key@),
            },
    {
        proof {
            use_type_invariant(&*self);
        }
        let at = self.position(key.as_str());
        let mut es: Vec<(String, V)> = Vec::new();
        core::mem::swap(&mut self.entries, &mut es);
        let prev = match at {
            Some(i) => {
                proof {
                    lemma_map_of_remove(es@, i as int);
                }
                let (_, v) = es.remove(i);
                Some(v)
            },
            None => None,
        };
        proof {
            lemma_map_of_entries(es@);
            let added = es@.push((key, value));
            assert(added.drop_last() =~= es@);
            assert(keys_distinct(added)) by {
                assert forall|i: int, j: int| 0 <= i < j < added.len() implies (
                #[trigger] added[i]).0@ != (#[trigger] added[j]).0@ by {
                    assert(added[i] == es@[i]);
                    if j < es@.len() {
                        assert(added[j] == es@[j]);
                    } else {
                        assert(map_of(es@).contains_key(es@[i].0@));
                    }
                }
            }
            assert(old(self)@.remove(key@).insert(key@, value) =~= old(self)@.insert(key@, value));
        }
        es.push((key, value));
        self.entries = es;
        prev
    }

    /// The entries of the map, each key once, in no particular order.
    pub fn into_entries(self) -> (es: Vec<(String, V)>)
        ensures
            keys_distinct(es@),
            map_of(es@) == self@,
    {
        proof {
            use_type_invariant(&self);
        }
        self.entries
    }

    /// Takes `key` out of the map and hands back the value it had.
    pub fn remove(&mut self, key: &str) -> (prev: Option<V>)
        ensures
            final(self)@ == old(self)@.remove(key@),
            match prev {
                Some(v) => old(self)@.contains_key(key@) && v == old(self)@[key@],
                None => !old(self)@.contains_key(key@),
            },
    {
        proof {
            use_type_invariant(&*self);
        }
        match self.position(key) {
            Some(i) => {
                let mut es: Vec<(String, V)> = Vec::new();
                core::mem::swap(&mut self.entries, &mut es);
                proof {
                    lemma_map_of_remove(es@, i as int);
                }
                let (_, v) = es.remove(i);
                self.entries = es;
                Some(v)
            },
            None => {
                proof {
                    assert(old(self)@.remove(key@) =~= old(self)@);
                }
                None
            },
        }
    }
}

} // verus!
