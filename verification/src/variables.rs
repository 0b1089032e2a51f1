//! A small map from names to values, used for workflow variables.
//!
//! The map is kept as a vector of `(name, value)` pairs in which no name
//! occurs twice.  Its view is the mathematical map from names to values.

use vstd::prelude::*;
use crate::text::str_eq;
use vstd::std_specs::cmp::PartialEqSpecImpl;

verus! {

/// The map that a sequence of `(name, value)` pairs stands for: the pairs are
/// inserted from left to right, so a later pair wins over an earlier one.
pub open spec fn pairs_map(s: Seq<(String, String)>) -> Map<Seq<char>, Seq<char>>
    decreases s.len(),
{
    if s.len() == 0 {
        Map::empty()
    } else {
        pairs_map(s.drop_last()).insert(s.last().0@, s.last().1@)
    }
}

/// No name occurs twice among the pairs.
pub open spec fn distinct_names(s: Seq<(String, String)>) -> bool {
    forall|i: int, j: int| 0 <= i < j < s.len() ==> s[i].0@ != s[j].0@
}

/// Appending a pair inserts it into the map.
pub proof fn lemma_pairs_map_push(s: Seq<(String, String)>, p: (String, String))
    ensures
        pairs_map(s.push(p)) == pairs_map(s).insert(p.0@, p.1@),
{
    assert(s.push(p).drop_last() =~= s);
}

/// A name is in the map exactly if some pair carries it.
pub proof fn lemma_pairs_map_dom(s: Seq<(String, String)>, k: Seq<char>)
    ensures
        pairs_map(s).contains_key(k) <==> exists|i: int| 0 <= i < s.len() && #[trigger] s[i].0@ == k,
    decreases s.len(),
{
    if s.len() > 0 {
        let t = s.drop_last();
        lemma_pairs_map_dom(t, k);
        if pairs_map(s).contains_key(k) {
            if s.last().0@ == k {
                assert(s[s.len() - 1].0@ == k);
            } else {
                let i = choose|i: int| 0 <= i < t.len() && #[trigger] t[i].0@ == k;
                assert(s[i].0@ == k);
            }
        }
        if exists|i: int| 0 <= i < s.len() && #[trigger] s[i].0@ == k {
            let i = choose|i: int| 0 <= i < s.len() && #[trigger] s[i].0@ == k;
            if i < s.len() - 1 {
                assert(t[i].0@ == k);
            }
        }
    }
}

/// Where no name occurs twice, every pair is what the map holds for its name.
pub proof fn lemma_pairs_map_lookup(s: Seq<(String, String)>, i: int)
    requires
        distinct_names(s),
        0 <= i < s.len(),
    ensures
        pairs_map(s).contains_key(s[i].0@),
        pairs_map(s)[s[i].0@] == s[i].1@,
    decreases s.len(),
{
    if i < s.len() - 1 {
        let t = s.drop_last();
        assert(distinct_names(t));
        lemma_pairs_map_lookup(t, i);
        assert(t[i] == s[i]);
        assert(s[i].0@ != s[s.len() - 1].0@);
    }
}

/// A map from variable names to variable values.
#[derive(Debug, Eq)]
pub struct Variables {
    entries: Vec<(String, String)>,
}

impl View for Variables {
    type V = Map<Seq<char>, Seq<char>>;

    closed spec fn view(&self) -> Map<Seq<char>, Seq<char>> {
        pairs_map(self.entries@)
    }
}

impl Variables {
    #[verifier::type_invariant]
    spec fn no_name_twice(self) -> bool {
        distinct_names(self.entries@)
    }

    /// The pairs as they are stored.
    pub closed spec fn spec_pairs(self) -> Seq<(String, String)> {
        self.entries@
    }

    /// An empty map.
    pub fn new() -> (r: Variables)
        ensures
            r@ == (Map::<Seq<char>, Seq<char>>::empty()),
    {
        Variables { entries: Vec::new() }
    }

    /// The map that `pairs` stand for: where a name occurs more than once, its
    /// last value stays.
    pub fn from_pairs(pairs: &Vec<(String, String)>) -> (r: Variables)
        ensures
            r@ == pairs_map(pairs@),
    {
        let mut r = Variables::new();
        let mut i: usize = 0;
        while i < pairs.len()
            invariant
                i <= pairs.len(),
                r@ == pairs_map(pairs@.take(i as int)),
            decreases pairs.len() - i,
        {
            proof {
                assert(pairs@.take(i + 1) =~= pairs@.take(i as int).push(pairs@[i as int]));
                lemma_pairs_map_push(pairs@.take(i as int), pairs@[i as int]);
            }
            r.insert(pairs[i].0.as_str(), pairs[i].1.as_str());
            i = i + 1;
        }
        proof {
            assert(pairs@.take(pairs@.len() as int) =~= pairs@);
        }
        r
    }

    /// Whether the map holds no variable.
    pub fn is_empty(&self) -> (r: bool)
        ensures
            r == (self@ == (Map::<Seq<char>, Seq<char>>::empty())),
    {
        let r = self.entries.len() == 0;
        proof {
            if !r {
                let s = self.entries@;
                assert(pairs_map(s).contains_key(s.last().0@));
                assert(!Map::<Seq<char>, Seq<char>>::empty().contains_key(s.last().0@));
            }
        }
        r
    }

    /// The number of variables.
    pub fn len(&self) -> (r: usize)
        ensures
            r == self.spec_pairs().len(),
            self@.dom().finite(),
            r == self@.len(),
    {
        proof {
            use_type_invariant(self);
            lemma_pairs_map_len(self.entries@);
        }
        self.entries.len()
    }

    /// The pairs of the map, each name once; inserting them one after the
    /// other into an empty map gives the map back.
    pub fn pairs(&self) -> (r: &Vec<(String, String)>)
        ensures
            r@ == self.spec_pairs(),
            pairs_map(r@) == self@,
            distinct_names(r@),
    {
        proof {
            use_type_invariant(self);
        }
        &self.entries
    }

    /// The value of `key`, if the map holds one.
    pub fn get(&self, key: &str) -> (r: Option<&String>)
        ensures
            match r {
                Some(v) => self@.contains_key(key@) && self@[key@] == v@,
                None => !self@.contains_key(key@),
            },
    {
        proof {
            use_type_invariant(self);
        }
        let mut i: usize = 0;
        while i < self.entries.len()
            invariant
                i <= self.entries.len(),
                distinct_names(self.entries@),
                forall|j: int| 0 <= j < i ==> (#[trigger] self.entries@[j]).0@ != key@,
            decreases self.entries.len() - i,
        {
            if str_eq(self.entries[i].0.as_str(), key) {
                proof {
                    lemma_pairs_map_lookup(self.entries@, i as int);
                }
                return Some(&self.entries[i].1);
            }
            i = i + 1;
        }
        proof {
            lemma_pairs_map_dom(self.entries@, key@);
        }
        None
    }

    /// Whether the map holds a value for `key`.
    pub fn contains_key(&self, key: &str) -> (r: bool)
        ensures
            r == self@.contains_key(key@),
    {
        self.get(key).is_some()
    }

    /// The pairs of the map without the one named `key`.
    fn pairs_without(&self, key: &str) -> (kept: Vec<(String, String)>)
        ensures
            distinct_names(kept@),
            pairs_map(kept@) == self@.remove(key@),
    {
        proof {
            use_type_invariant(self);
        }
        let mut kept: Vec<(String, String)> = Vec::new();
        let mut i: usize = 0;
        while i < self.entries.len()
            invariant
                i <= self.entries.len(),
                distinct_names(self.entries@),
                distinct_names(kept@),
                pairs_map(kept@) == pairs_map(self.entries@.take(i as int)).remove(key@),
            decreases self.entries.len() - i,
        {
            let ghost before = self.entries@.take(i as int);
            let ghost here = self.entries@[i as int];
            proof {
                assert(self.entries@.take(i + 1) =~= before.push(here));
                lemma_pairs_map_push(before, here);
            }
            if !str_eq(self.entries[i].0.as_str(), key) {
                let pair = (self.entries[i].0.clone(), self.entries[i].1.clone());
                proof {
                    lemma_pairs_map_push(kept@, pair);
                    assert(pairs_map(kept@).insert(pair.0@, pair.1@) =~= pairs_map(
                        before.push(here),
                    ).remove(key@));
                    assert forall|a: int, b: int| 0 <= a < b < kept@.push(pair).len() implies kept@.push(
                        pair,
                    )[a].0@ != kept@.push(pair)[b].0@ by {
                        if b == kept@.len() {
                            lemma_pairs_map_dom(kept@, pair.0@);
                            if kept@[a].0@ == pair.0@ {
                                assert(pairs_map(before).contains_key(pair.0@));
                                lemma_pairs_map_dom(before, pair.0@);
                                let c = choose|c: int| 0 <= c < before.len() && #[trigger] before[c].0@ == pair.0@;
                                assert(self.entries@[c].0@ == self.entries@[i as int].0@);
                            }
                        }
                    }
                }
                kept.push(pair);
            } else {
                proof {
                    assert(pairs_map(kept@) =~= pairs_map(before.push(here)).remove(key@));
                }
            }
            i = i + 1;
        }
        proof {
            assert(self.entries@.take(self.entries@.len() as int) =~= self.entries@);
        }
        kept
    }

    /// Removes `key` and its value; other variables stay as they are.
    pub fn remove(&mut self, key: &str)
        ensures
            final(self)@ == old(self)@.remove(key@),
    {
        let kept = self.pairs_without(key);
        self.entries = kept;
    }

    /// Sets the value of `key` to `value`, replacing an earlier value.
    pub fn insert(&mut self, key: &str, value: &str)
        ensures
            final(self)@ == old(self)@.insert(key@, value@),
    {
        let mut kept = self.pairs_without(key);
        let pair = (key.to_owned(), value.to_owned());
        proof {
            lemma_pairs_map_push(kept@, pair);
            lemma_pairs_map_dom(kept@, key@);
            assert(old(self)@.remove(key@).insert(key@, value@) =~= old(self)@.insert(key@, value@));
        }
        kept.push(pair);
        self.entries = kept;
    }

    /// Removes every variable.
    pub fn clear(&mut self)
        ensures
            final(self)@ == (Map::<Seq<char>, Seq<char>>::empty()),
    {
        self.entries = Vec::new();
    }

    /// A copy of the map.
    pub fn duplicate(&self) -> (r: Variables)
        ensures
            r@ == self@,
    {
        proof {
            use_type_invariant(self);
        }
        let mut copy: Vec<(String, String)> = Vec::new();
        let mut i: usize = 0;
        while i < self.entries.len()
            invariant
                i <= self.entries.len(),
                copy@.len() == i,
                forall|j: int| 0 <= j < i ==> copy@[j].0@ == self.entries@[j].0@ && copy@[j].1@ == self.entries@[j].1@,
            decreases self.entries.len() - i,
        {
            copy.push((self.entries[i].0.clone(), self.entries[i].1.clone()));
            i = i + 1;
        }
        proof {
            lemma_pairs_map_same(copy@, self.entries@);
        }
        Variables { entries: copy }
    }
}

impl PartialEq for Variables {
    /// Two maps are equal where they hold the same variables with the same
    /// values, in whatever order these were set.
    fn eq(&self, other: &Variables) -> (r: bool) {
        proof {
            use_type_invariant(self);
            use_type_invariant(other);
            lemma_pairs_map_len(self.entries@);
            lemma_pairs_map_len(other.entries@);
        }
        if self.entries.len() != other.entries.len() {
            return false;
        }
        let mut i: usize = 0;
        while i < self.entries.len()
            invariant
                i <= self.entries.len(),
                distinct_names(self.entries@),
                forall|j: int|
                    0 <= j < i ==> other@.contains_key((#[trigger] self.entries@[j]).0@) && other@[self.entries@[j].0@]
                        == self.entries@[j].1@,
            decreases self.entries.len() - i,
        {
            proof {
                lemma_pairs_map_lookup(self.entries@, i as int);
            }
            match other.get(self.entries[i].0.as_str()) {
                Some(v) => {
                    if !str_eq(v.as_str(), self.entries[i].1.as_str()) {
                        return false;
                    }
                },
                None => {
                    return false;
                },
            }
            i = i + 1;
        }
        proof {
            assert forall|k: Seq<char>| #[trigger] self@.dom().contains(k) implies other@.dom().contains(k)
                && other@[k] == self@[k] by {
                lemma_pairs_map_dom(self.entries@, k);
                let j = choose|j: int| 0 <= j < self.entries@.len() && #[trigger] self.entries@[j].0@ == k;
                lemma_pairs_map_lookup(self.entries@, j);
            }
            assert(self@.dom().subset_of(other@.dom()));
            vstd::set_lib::lemma_subset_equality(self@.dom(), other@.dom());
            assert(self@ =~= other@);
        }
        true
    }
}

impl PartialEqSpecImpl for Variables {
    open spec fn obeys_eq_spec() -> bool {
        true
    }

    open spec fn eq_spec(&self, other: &Variables) -> bool {
        self@ == other@
    }
}

impl Clone for Variables {
    fn clone(&self) -> (r: Variables)
        ensures
            r@ == self@,
    {
        self.duplicate()
    }
}

impl Default for Variables {
    fn default() -> (r: Variables)
        ensures
            r@ == (Map::<Seq<char>, Seq<char>>::empty()),
    {
        Variables::new()
    }
}

/// Two sequences of pairs that agree name by name and value by value stand for
/// the same map, and one has a name twice exactly if the other has.
pub proof fn lemma_pairs_map_same(a: Seq<(String, String)>, b: Seq<(String, String)>)
    requires
        a.len() == b.len(),
        forall|j: int| 0 <= j < a.len() ==> a[j].0@ == b[j].0@ && a[j].1@ == b[j].1@,
    ensures
        pairs_map(a) == pairs_map(b),
        distinct_names(b) ==> distinct_names(a),
    decreases a.len(),
{
    if a.len() > 0 {
        lemma_pairs_map_same(a.drop_last(), b.drop_last());
    }
}

/// Where no name occurs twice, the map has as many entries as there are pairs.
pub proof fn lemma_pairs_map_len(s: Seq<(String, String)>)
    requires
        distinct_names(s),
    ensures
        pairs_map(s).dom().finite(),
        pairs_map(s).len() == s.len(),
    decreases s.len(),
{
    if s.len() > 0 {
        let t = s.drop_last();
        assert(distinct_names(t));
        lemma_pairs_map_len(t);
        lemma_pairs_map_dom(t, s.last().0@);
        if pairs_map(t).contains_key(s.last().0@) {
            let i = choose|i: int| 0 <= i < t.len() && #[trigger] t[i].0@ == s.last().0@;
            assert(s[i].0@ == s[s.len() - 1].0@);
        }
    }
}

} // verus!
