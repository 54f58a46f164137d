//! Parameter sets: mappings from parameter name to value, kept in ascending
//! byte-wise order of the names.

use vstd::prelude::*;
use crate::order::{compare_keys, key_before, lemma_key_before_strict, KeyOrder};

verus! {

/// One parameter: its name and its value.
#[derive(Debug, PartialEq, Eq)]
pub struct Param {
    pub key: String,
    pub value: String,
}

/// A parameter as the contracts see it: name, then value.
pub type Pair = (Seq<char>, Seq<char>);

/// The names stand in strictly ascending byte-wise order, so none occurs twice.
pub open spec fn ascending(pairs: Seq<Pair>) -> bool {
    forall|i: int, j: int|
        #![trigger pairs[i], pairs[j]]
        0 <= i < j < pairs.len() ==> key_before(pairs[i].0, pairs[j].0)
}

/// Some pair carries the name `key`.
pub open spec fn has_key(pairs: Seq<Pair>, key: Seq<char>) -> bool {
    exists|i: int| 0 <= i < pairs.len() && (#[trigger] pairs[i]).0 == key
}

/// Where the name `key` stands among the pairs.
pub open spec fn position(pairs: Seq<Pair>, key: Seq<char>) -> int {
    choose|i: int| 0 <= i < pairs.len() && (#[trigger] pairs[i]).0 == key
}

/// The mapping that a sequence of pairs stands for.
pub open spec fn as_map(pairs: Seq<Pair>) -> Map<Seq<char>, Seq<char>> {
    Map::new(|key: Seq<char>| has_key(pairs, key), |key: Seq<char>| pairs[position(pairs, key)].1)
}

/// The pairs of a mapping in ascending order of their names.
pub open spec fn ascending_pairs(map: Map<Seq<char>, Seq<char>>) -> Seq<Pair> {
    choose|pairs: Seq<Pair>| ascending(pairs) && as_map(pairs) == map
}

/// In an ascending sequence every pair is found under its own name.
pub proof fn lemma_lookup(pairs: Seq<Pair>, i: int)
    requires
        ascending(pairs),
        0 <= i < pairs.len(),
    ensures
        has_key(pairs, pairs[i].0),
        position(pairs, pairs[i].0) == i,
        as_map(pairs).contains_key(pairs[i].0),
        as_map(pairs)[pairs[i].0] == pairs[i].1,
{
    let key = pairs[i].0;
    let p = position(pairs, key);
    assert(0 <= p < pairs.len() && pairs[p].0 == key);
    lemma_key_before_strict(key, key, key);
    if p < i {
        assert(key_before(pairs[p].0, pairs[i].0));
    } else if i < p {
        assert(key_before(pairs[i].0, pairs[p].0));
    }
}

/// A name that lies strictly between the names before `at` and those from
/// `at` on is not among the pairs.
pub proof fn lemma_absent(pairs: Seq<Pair>, key: Seq<char>, at: int)
    requires
        0 <= at <= pairs.len(),
        forall|j: int| 0 <= j < at ==> key_before((#[trigger] pairs[j]).0, key),
        forall|j: int| at <= j < pairs.len() ==> key_before(key, (#[trigger] pairs[j]).0),
    ensures
        !has_key(pairs, key),
        !as_map(pairs).contains_key(key),
{
    assert forall|j: int| 0 <= j < pairs.len() implies (#[trigger] pairs[j]).0 != key by {
        lemma_key_before_strict(key, key, key);
    }
}

/// Putting a new name at its place keeps the order and adds one entry to the
/// mapping.
pub proof fn lemma_insert(pairs: Seq<Pair>, at: int, key: Seq<char>, value: Seq<char>)
    requires
        ascending(pairs),
        0 <= at <= pairs.len(),
        forall|j: int| 0 <= j < at ==> key_before((#[trigger] pairs[j]).0, key),
        forall|j: int| at <= j < pairs.len() ==> key_before(key, (#[trigger] pairs[j]).0),
    ensures
        ascending(pairs.insert(at, (key, value))),
        as_map(pairs.insert(at, (key, value))) == as_map(pairs).insert(key, value),
{
    let grown = pairs.insert(at, (key, value));
    assert forall|i: int, j: int| 0 <= i < j < grown.len() implies key_before(
        (#[trigger] grown[i]).0,
        (#[trigger] grown[j]).0,
    ) by {
        let oi = if i < at { i } else { i - 1 };
        let oj = if j < at { j } else { j - 1 };
        if i != at && j != at {
            assert(key_before(pairs[oi].0, pairs[oj].0));
        } else if i == at {
            assert(key_before(key, pairs[oj].0));
        } else {
            assert(key_before(pairs[oi].0, key));
        }
    }
    lemma_absent(pairs, key, at);
    assert forall|k: Seq<char>| #[trigger] has_key(grown, k) <==> (k == key || has_key(pairs, k)) by {
        if has_key(grown, k) {
            let i = position(grown, k);
            if i != at {
                let oi = if i < at { i } else { i - 1 };
                assert(pairs[oi].0 == k);
            }
        }
        if k == key {
            assert(grown[at].0 == k);
        }
        if has_key(pairs, k) {
            let i = position(pairs, k);
            let ni = if i < at { i } else { i + 1 };
            assert(grown[ni].0 == k);
        }
    }
    assert forall|k: Seq<char>| has_key(grown, k) implies #[trigger] as_map(grown)[k] == as_map(
        pairs,
    ).insert(key, value)[k] by {
        let i = position(grown, k);
        lemma_lookup(grown, i);
        if i != at {
            let oi = if i < at { i } else { i - 1 };
            assert(pairs[oi] == grown[i]);
            lemma_lookup(pairs, oi);
        }
    }
    assert(as_map(grown) =~= as_map(pairs).insert(key, value));
}

/// Giving a name a new value keeps the order and changes one entry of the
/// mapping.
pub proof fn lemma_replace(pairs: Seq<Pair>, at: int, value: Seq<char>)
    requires
        ascending(pairs),
        0 <= at < pairs.len(),
    ensures
        ascending(pairs.update(at, (pairs[at].0, value))),
        as_map(pairs.update(at, (pairs[at].0, value))) == as_map(pairs).insert(pairs[at].0, value),
{
    let key = pairs[at].0;
    let changed = pairs.update(at, (key, value));
    assert forall|i: int, j: int| 0 <= i < j < changed.len() implies key_before(
        (#[trigger] changed[i]).0,
        (#[trigger] changed[j]).0,
    ) by {
        assert(key_before(pairs[i].0, pairs[j].0));
    }
    assert forall|k: Seq<char>| #[trigger] has_key(changed, k) <==> has_key(pairs, k) by {
        if has_key(changed, k) {
            let i = position(changed, k);
            assert(pairs[i].0 == k);
        }
        if has_key(pairs, k) {
            let i = position(pairs, k);
            assert(changed[i].0 == k);
        }
    }
    lemma_lookup(pairs, at);
    assert forall|k: Seq<char>| has_key(changed, k) implies #[trigger] as_map(changed)[k] == as_map(
        pairs,
    ).insert(key, value)[k] by {
        let i = position(changed, k);
        lemma_lookup(changed, i);
        if i != at {
            assert(pairs[i] == changed[i]);
            lemma_lookup(pairs, i);
        }
    }
    assert(as_map(changed) =~= as_map(pairs).insert(key, value));
}

/// Taking a pair out keeps the order and takes its name out of the mapping.
pub proof fn lemma_remove(pairs: Seq<Pair>, at: int)
    requires
        ascending(pairs),
        0 <= at < pairs.len(),
    ensures
        ascending(pairs.remove(at)),
        as_map(pairs.remove(at)) == as_map(pairs).remove(pairs[at].0),
{
    let key = pairs[at].0;
    let rest = pairs.remove(at);
    assert forall|i: int, j: int| 0 <= i < j < rest.len() implies key_before(
        (#[trigger] rest[i]).0,
        (#[trigger] rest[j]).0,
    ) by {
        let oi = if i < at { i } else { i + 1 };
        let oj = if j < at { j } else { j + 1 };
        assert(key_before(pairs[oi].0, pairs[oj].0));
    }
    assert forall|k: Seq<char>| #[trigger] has_key(rest, k) <==> (k != key && has_key(pairs, k)) by {
        if has_key(rest, k) {
            let i = position(rest, k);
            let oi = if i < at { i } else { i + 1 };
            assert(pairs[oi].0 == k);
            lemma_lookup(pairs, oi);
            lemma_lookup(pairs, at);
        }
        if k != key && has_key(pairs, k) {
            let i = position(pairs, k);
            let ni = if i < at { i } else { i - 1 };
            assert(rest[ni].0 == k);
        }
    }
    assert forall|k: Seq<char>| has_key(rest, k) implies #[trigger] as_map(rest)[k] == as_map(
        pairs,
    )[k] by {
        let i = position(rest, k);
        lemma_lookup(rest, i);
        let oi = if i < at { i } else { i + 1 };
        assert(pairs[oi] == rest[i]);
        lemma_lookup(pairs, oi);
    }
    assert(as_map(rest) =~= as_map(pairs).remove(key));
}

/// A mapping has one ascending sequence of pairs only: two ascending
/// sequences that stand for the same mapping are the same sequence.
pub proof fn lemma_ascending_unique(a: Seq<Pair>, b: Seq<Pair>)
    requires
        ascending(a),
        ascending(b),
        as_map(a) == as_map(b),
    ensures
        a == b,
    decreases a.len(),
{
    if a.len() == 0 {
        if b.len() > 0 {
            lemma_lookup(b, 0);
            assert(has_key(a, b[0].0));
        }
        assert(a =~= b);
    } else {
        lemma_lookup(a, 0);
        assert(has_key(b, a[0].0));
        lemma_lookup(b, 0);
        assert(has_key(a, b[0].0));
        let i = position(a, b[0].0);
        let j = position(b, a[0].0);
        lemma_key_before_strict(a[0].0, b[0].0, a[0].0);
        if j > 0 {
            assert(key_before(b[0].0, b[j].0));
            if i > 0 {
                assert(key_before(a[0].0, a[i].0));
            }
        }
        assert(a[0].0 == b[0].0);
        assert(a[0] == b[0]);
        lemma_remove(a, 0);
        lemma_remove(b, 0);
        lemma_ascending_unique(a.remove(0), b.remove(0));
        assert(a =~= seq![a[0]] + a.remove(0));
        assert(b =~= seq![b[0]] + b.remove(0));
    }
}

/// The ascending pairs of the mapping of an ascending sequence are that
/// sequence.
pub proof fn lemma_ascending_pairs(pairs: Seq<Pair>)
    requires
        ascending(pairs),
    ensures
        ascending_pairs(as_map(pairs)) == pairs,
{
    let chosen = ascending_pairs(as_map(pairs));
    assert(ascending(chosen) && as_map(chosen) == as_map(pairs));
    lemma_ascending_unique(chosen, pairs);
}

/// The mapping of the first `n + 1` pairs of an ascending sequence is that
/// of the first `n` with one more entry; the first none make the empty
/// mapping.
pub proof fn lemma_take_step(pairs: Seq<Pair>, n: int)
    requires
        ascending(pairs),
        0 <= n < pairs.len(),
    ensures
        as_map(pairs.take(0)) == Map::<Seq<char>, Seq<char>>::empty(),
        as_map(pairs.take(n + 1)) == as_map(pairs.take(n)).insert(pairs[n].0, pairs[n].1),
{
    let part = pairs.take(n);
    assert(as_map(pairs.take(0)) =~= Map::<Seq<char>, Seq<char>>::empty());
    assert forall|a: int, b: int| 0 <= a < b < part.len() implies key_before(
        (#[trigger] part[a]).0,
        (#[trigger] part[b]).0,
    ) by {
        assert(key_before(pairs[a].0, pairs[b].0));
    }
    assert forall|j: int| 0 <= j < n implies key_before((#[trigger] part[j]).0, pairs[n].0) by {
        assert(key_before(pairs[j].0, pairs[n].0));
    }
    lemma_insert(part, n, pairs[n].0, pairs[n].1);
    assert(part.insert(n, (pairs[n].0, pairs[n].1)) =~= pairs.take(n + 1));
}

/// An ascending sequence names as many keys as it has pairs.
pub proof fn lemma_domain_size(pairs: Seq<Pair>)
    requires
        ascending(pairs),
    ensures
        as_map(pairs).dom().finite(),
        as_map(pairs).dom().len() == pairs.len(),
    decreases pairs.len(),
{
    if pairs.len() == 0 {
        assert(as_map(pairs).dom() =~= Set::<Seq<char>>::empty());
    } else {
        let n = pairs.len() - 1;
        let front = pairs.take(n);
        assert forall|a: int, b: int| 0 <= a < b < front.len() implies key_before(
            (#[trigger] front[a]).0,
            (#[trigger] front[b]).0,
        ) by {
            assert(key_before(pairs[a].0, pairs[b].0));
        }
        assert forall|j: int| 0 <= j < n implies key_before((#[trigger] front[j]).0, pairs[n].0) by {
            assert(key_before(pairs[j].0, pairs[n].0));
        }
        lemma_domain_size(front);
        lemma_take_step(pairs, n);
        lemma_absent(front, pairs[n].0, n);
        assert(pairs.take(n + 1) =~= pairs);
        assert(as_map(pairs).dom() =~= as_map(front).dom().insert(pairs[n].0));
    }
}

/// A parameter set: each name has one value, and the entries stand in
/// ascending byte-wise order of their names.
#[derive(Debug, PartialEq, Eq)]
pub struct Params {
    entries: Vec<Param>,
}

impl View for Params {
    type V = Map<Seq<char>, Seq<char>>;

    /// The mapping from name to value.
    open spec fn view(&self) -> Map<Seq<char>, Seq<char>> {
        as_map(self.pairs())
    }
}

impl Clone for Params {
    fn clone(&self) -> (copy: Params)
        ensures
            copy.pairs() == self.pairs(),
            copy@ == self@,
    {
        proof {
            use_type_invariant(self);
        }
        let mut entries: Vec<Param> = Vec::new();
        let mut i: usize = 0;
        while i < self.entries.len()
            invariant
                i <= self.entries@.len(),
                entries@.len() == i,
                forall|j: int|
                    0 <= j < i ==> (#[trigger] entries@[j]).key@ == self.entries@[j].key@
                        && entries@[j].value@ == self.entries@[j].value@,
            decreases self.entries@.len() - i,
        {
            entries.push(
                Param { key: self.entries[i].key.clone(), value: self.entries[i].value.clone() },
            );
            i += 1;
        }
        assert(pairs_of(entries@) =~= self.pairs());
        Params { entries }
    }
}

/// The entries as the contracts see them.
pub open spec fn pairs_of(entries: Seq<Param>) -> Seq<Pair> {
    Seq::new(entries.len(), |i: int| (entries[i].key@, entries[i].value@))
}

impl Params {
    #[verifier::type_invariant]
    spec fn ordered(self) -> bool {
        ascending(self.pairs())
    }

    /// The entries in the order in which they are kept.
    pub closed spec fn pairs(self) -> Seq<Pair> {
        pairs_of(self.entries@)
    }

    /// The empty parameter set.
    pub fn new() -> (params: Params)
        ensures
            params@ == Map::<Seq<char>, Seq<char>>::empty(),
            params.pairs() == Seq::<Pair>::empty(),
    {
        let params = Params { entries: Vec::new() };
        assert(params.pairs() =~= Seq::<Pair>::empty());
        assert(params@ =~= Map::<Seq<char>, Seq<char>>::empty());
        params
    }

    /// The number of parameters.
    pub fn len(&self) -> (n: usize)
        ensures
            n == self.pairs().len(),
            self@.dom().finite(),
            n == self@.dom().len(),
    {
        proof {
            use_type_invariant(self);
            lemma_domain_size(self.pairs());
        }
        self.entries.len()
    }

    /// Whether the set holds no parameter.
    pub fn is_empty(&self) -> (empty: bool)
        ensures
            empty == (self.pairs().len() == 0),
            empty == (self@ == Map::<Seq<char>, Seq<char>>::empty()),
    {
        proof {
            use_type_invariant(self);
            if self.entries@.len() > 0 {
                lemma_lookup(self.pairs(), 0);
            } else {
                assert(self@ =~= Map::<Seq<char>, Seq<char>>::empty());
            }
        }
        self.entries.len() == 0
    }

    /// The entries, in ascending byte-wise order of their names: the one
    /// ascending sequence that stands for the mapping.
    pub fn entries(&self) -> (entries: &Vec<Param>)
        ensures
            pairs_of(entries@) == self.pairs(),
            ascending(self.pairs()),
            self.pairs() == ascending_pairs(self@),
    {
        proof {
            use_type_invariant(self);
            lemma_ascending_pairs(self.pairs());
        }
        &self.entries
    }

    /// Where `key` stands, or would stand, among the entries, and whether it
    /// is there.
    fn locate(&self, key: &str) -> (place: (usize, bool))
        ensures
            place.0 <= self.pairs().len(),
            forall|j: int| 0 <= j < place.0 ==> key_before((#[trigger] self.pairs()[j]).0, key@),
            forall|j: int|
                place.0 + (if place.1 { 1int } else { 0int }) <= j < self.pairs().len() ==> key_before(
                    key@,
                    (#[trigger] self.pairs()[j]).0,
                ),
            place.1 ==> place.0 < self.pairs().len() && self.pairs()[place.0 as int].0 == key@,
            place.1 == self@.contains_key(key@),
    {
        proof {
            use_type_invariant(self);
        }
        let mut i: usize = 0;
        let mut found = false;
        while i < self.entries.len()
            invariant_except_break
                !found,
            invariant
                i <= self.entries@.len(),
                ascending(self.pairs()),
                forall|j: int| 0 <= j < i ==> key_before((#[trigger] self.pairs()[j]).0, key@),
            ensures
                found ==> i < self.entries@.len() && self.pairs()[i as int].0 == key@,
                !found ==> forall|j: int|
                    i <= j < self.pairs().len() ==> key_before(key@, (#[trigger] self.pairs()[j]).0),
            decreases self.entries@.len() - i,
        {
            match compare_keys(self.entries[i].key.as_str(), key) {
                KeyOrder::Before => {
                    i += 1;
                },
                KeyOrder::Same => {
                    found = true;
                    break ;
                },
                KeyOrder::After => {
                    proof {
                        let first = self.pairs()[i as int].0;
                        assert forall|j: int| i <= j < self.pairs().len() implies key_before(
                            key@,
                            (#[trigger] self.pairs()[j]).0,
                        ) by {
                            if i < j {
                                assert(key_before(self.pairs()[i as int].0, self.pairs()[j].0));
                                lemma_key_before_strict(key@, first, self.pairs()[j].0);
                            }
                        }
                    }
                    break ;
                },
            }
        }
        proof {
            if found {
                lemma_lookup(self.pairs(), i as int);
                assert forall|j: int| i + 1 <= j < self.pairs().len() implies key_before(
                    key@,
                    (#[trigger] self.pairs()[j]).0,
                ) by {
                    assert(key_before(self.pairs()[i as int].0, self.pairs()[j].0));
                }
            } else {
                lemma_absent(self.pairs(), key@, i as int);
            }
        }
        (i, found)
    }

    /// Whether the set names `key`.
    pub fn contains_key(&self, key: &str) -> (present: bool)
        ensures
            present == self@.contains_key(key@),
    {
        self.locate(key).1
    }

    /// The value of `key`, if the set names it.
    pub fn get(&self, key: &str) -> (value: Option<&String>)
        ensures
            match value {
                Some(text) => self@.contains_key(key@) && self@[key@] == text@,
                None => !self@.contains_key(key@),
            },
    {
        proof {
            use_type_invariant(self);
        }
        let (i, found) = self.locate(key);
        if found {
            proof {
                lemma_lookup(self.pairs(), i as int);
            }
            Some(&self.entries[i].value)
        } else {
            None
        }
    }

    /// Gives `key` the value `value`, whether or not the set named it before.
    pub fn insert(&mut self, key: String, value: String)
        ensures
            final(self)@ == old(self)@.insert(key@, value@),
    {
        proof {
            use_type_invariant(&*self);
        }
        let (i, found) = self.locate(key.as_str());
        let ghost before = self.pairs();
        let mut entries: Vec<Param> = Vec::new();
        core::mem::swap(&mut self.entries, &mut entries);
        assert(pairs_of(entries@) == before);
        if found {
            proof {
                lemma_replace(before, i as int, value@);
            }
            entries.set(i, Param { key, value });
            assert(pairs_of(entries@) =~= before.update(i as int, (before[i as int].0, value@)));
        } else {
            proof {
                lemma_insert(before, i as int, key@, value@);
            }
            entries.insert(i, Param { key, value });
            assert(pairs_of(entries@) =~= before.insert(i as int, (key@, value@)));
        }
        self.entries = entries;
    }

    /// Takes `key` out of the set, if it is there.
    pub fn remove(&mut self, key: &str)
        ensures
            final(self)@ == old(self)@.remove(key@),
    {
        proof {
            use_type_invariant(&*self);
        }
        let (i, found) = self.locate(key);
        let ghost before = self.pairs();
        if found {
            let mut entries: Vec<Param> = Vec::new();
            core::mem::swap(&mut self.entries, &mut entries);
            assert(pairs_of(entries@) == before);
            proof {
                lemma_remove(before, i as int);
            }
            entries.remove(i);
            assert(pairs_of(entries@) =~= before.remove(i as int));
            self.entries = entries;
        } else {
            assert(self@.remove(key@) =~= self@);
        }
    }

    /// Adds every parameter of `other`; where both sets name a key, the value
    /// of `other` stands.
    pub fn extend(&mut self, other: &Params)
        ensures
            final(self)@ == old(self)@.union_prefer_right(other@),
    {
        let added = other.entries();
        let ghost all = other.pairs();
        let mut i: usize = 0;
        assert(all.take(0) =~= Seq::<Pair>::empty());
        assert(as_map(all.take(0)) =~= Map::<Seq<char>, Seq<char>>::empty());
        assert(self@ =~= old(self)@.union_prefer_right(as_map(all.take(0))));
        while i < added.len()
            invariant
                i <= added@.len(),
                pairs_of(added@) == all,
                ascending(all),
                self@ == old(self)@.union_prefer_right(as_map(all.take(i as int))),
            decreases added@.len() - i,
        {
            proof {
                lemma_take_step(all, i as int);
                let part = as_map(all.take(i as int));
                assert(old(self)@.union_prefer_right(part).insert(all[i as int].0, all[i as int].1)
                    =~= old(self)@.union_prefer_right(
                    part.insert(all[i as int].0, all[i as int].1),
                ));
            }
            self.insert(added[i].key.clone(), added[i].value.clone());
            i += 1;
        }
        assert(all.take(i as int) =~= all);
    }
}

} // verus!
