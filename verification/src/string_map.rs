//! A map from strings to strings that keeps its keys in order, so that what is
//! rendered from it always comes out the same.

use vstd::prelude::*;

use crate::text::{lemma_precedes_excludes, lemma_precedes_transitive, precedes, standing, Standing};

verus! {

/// Labels, annotations and ConfigMap data.
///
/// The entries are sorted by key and no key occurs twice.
#[derive(Debug, PartialEq, Eq)]
pub struct StringMap {
    entries: Vec<(String, String)>,
}

/// Every key stands strictly before the keys behind it.
pub open spec fn ascending(entries: Seq<(Seq<char>, Seq<char>)>) -> bool {
    forall|i: int, j: int|
        0 <= i < j < entries.len() ==> precedes(#[trigger] entries[i].0, #[trigger] entries[j].0)
}

/// Some entry has this key.
pub open spec fn has_key(entries: Seq<(Seq<char>, Seq<char>)>, key: Seq<char>) -> bool {
    exists|i: int| 0 <= i < entries.len() && (#[trigger] entries[i]).0 == key
}

/// The value of an entry with this key.
pub open spec fn value_of(entries: Seq<(Seq<char>, Seq<char>)>, key: Seq<char>) -> Seq<char> {
    let i = choose|i: int| 0 <= i < entries.len() && (#[trigger] entries[i]).0 == key;
    entries[i].1
}

/// The map that a list of entries stands for.
pub open spec fn as_map(entries: Seq<(Seq<char>, Seq<char>)>) -> Map<Seq<char>, Seq<char>> {
    Map::new(|key: Seq<char>| has_key(entries, key), |key: Seq<char>| value_of(entries, key))
}

impl DeepView for StringMap {
    type V = Map<Seq<char>, Seq<char>>;

    closed spec fn deep_view(&self) -> Map<Seq<char>, Seq<char>> {
        as_map(self.entries.deep_view())
    }
}

/// With ascending keys, an entry is the value of its key.
proof fn lemma_value_at(entries: Seq<(Seq<char>, Seq<char>)>, i: int)
    requires
        ascending(entries),
        0 <= i < entries.len(),
    ensures
        has_key(entries, entries[i].0),
        value_of(entries, entries[i].0) == entries[i].1,
{
    let key = entries[i].0;
    assert(entries[i].0 == key);
    let j = choose|j: int| 0 <= j < entries.len() && (#[trigger] entries[j]).0 == key;
    if i != j {
        if i < j {
            assert(precedes(entries[i].0, entries[j].0));
        } else {
            assert(precedes(entries[j].0, entries[i].0));
        }
        lemma_precedes_excludes(key, key);
    }
}

/// Writing a new value at a key that is there.
proof fn lemma_replaced(
    before: Seq<(Seq<char>, Seq<char>)>,
    after: Seq<(Seq<char>, Seq<char>)>,
    at: int,
    value: Seq<char>,
)
    requires
        ascending(before),
        0 <= at < before.len(),
        after == before.update(at, (before[at].0, value)),
    ensures
        ascending(after),
        as_map(after) == as_map(before).insert(before[at].0, value),
{
    let key = before[at].0;
    assert forall|i: int, j: int| 0 <= i < j < after.len() implies precedes(
        #[trigger] after[i].0,
        #[trigger] after[j].0,
    ) by {
        assert(precedes(before[i].0, before[j].0));
    }
    lemma_value_at(after, at);
    let expected = as_map(before).insert(key, value);
    assert forall|k: Seq<char>| as_map(after).dom().contains(k) == expected.dom().contains(k) by {
        if has_key(after, k) {
            let i = choose|i: int| 0 <= i < after.len() && (#[trigger] after[i]).0 == k;
            assert(before[i].0 == k);
        }
        if has_key(before, k) {
            let i = choose|i: int| 0 <= i < before.len() && (#[trigger] before[i]).0 == k;
            assert(after[i].0 == k);
        }
    }
    assert forall|k: Seq<char>| as_map(after).dom().contains(k) implies as_map(after)[k]
        == expected[k] by {
        let i = choose|i: int| 0 <= i < after.len() && (#[trigger] after[i]).0 == k;
        lemma_value_at(after, i);
        if k != key {
            assert(before[i] == after[i]);
            lemma_value_at(before, i);
        }
    }
    assert(as_map(after) =~= expected);
}

/// Adding an entry between the keys before it and the keys after it.
proof fn lemma_inserted(
    before: Seq<(Seq<char>, Seq<char>)>,
    after: Seq<(Seq<char>, Seq<char>)>,
    at: int,
    key: Seq<char>,
    value: Seq<char>,
)
    requires
        ascending(before),
        0 <= at <= before.len(),
        after == before.insert(at, (key, value)),
        forall|i: int| 0 <= i < at ==> precedes(#[trigger] before[i].0, key),
        at < before.len() ==> precedes(key, before[at].0),
    ensures
        ascending(after),
        as_map(after) == as_map(before).insert(key, value),
{
    assert forall|i: int| at <= i < before.len() implies precedes(key, #[trigger] before[i].0) by {
        if at < i {
            assert(precedes(before[at].0, before[i].0));
            lemma_precedes_transitive(key, before[at].0, before[i].0);
        }
    }
    assert forall|i: int, j: int| 0 <= i < j < after.len() implies precedes(
        #[trigger] after[i].0,
        #[trigger] after[j].0,
    ) by {
        let oi = if i < at { i } else { i - 1 };
        let oj = if j < at { j } else { j - 1 };
        if i == at {
            assert(after[j] == before[oj]);
        } else if j == at {
            assert(after[i] == before[oi]);
        } else {
            assert(after[i] == before[oi]);
            assert(after[j] == before[oj]);
            assert(precedes(before[oi].0, before[oj].0));
        }
    }
    assert(after[at] == (key, value));
    lemma_value_at(after, at);
    let expected = as_map(before).insert(key, value);
    assert forall|k: Seq<char>| as_map(after).dom().contains(k) == expected.dom().contains(k) by {
        if has_key(after, k) {
            let i = choose|i: int| 0 <= i < after.len() && (#[trigger] after[i]).0 == k;
            if i != at {
                let o = if i < at { i } else { i - 1 };
                assert(before[o].0 == k);
            }
        }
        if has_key(before, k) {
            let i = choose|i: int| 0 <= i < before.len() && (#[trigger] before[i]).0 == k;
            let n = if i < at { i } else { i + 1 };
            assert(after[n].0 == k);
        }
    }
    assert forall|k: Seq<char>| as_map(after).dom().contains(k) implies as_map(after)[k]
        == expected[k] by {
        let i = choose|i: int| 0 <= i < after.len() && (#[trigger] after[i]).0 == k;
        lemma_value_at(after, i);
        if k != key {
            let o = if i < at { i } else { i - 1 };
            assert(before[o] == after[i]);
            lemma_value_at(before, o);
        }
    }
    assert(as_map(after) =~= expected);
}

impl StringMap {
    #[verifier::type_invariant]
    spec fn sorted(self) -> bool {
        ascending(self.entries.deep_view())
    }

    /// The empty map.
    pub fn new() -> (r: StringMap)
        ensures
            r.deep_view() == Map::<Seq<char>, Seq<char>>::empty(),
    {
        let r = StringMap { entries: Vec::new() };
        assert(r.deep_view() =~= Map::<Seq<char>, Seq<char>>::empty());
        r
    }

    /// Set a key, over any value it had.
    pub fn insert(&mut self, key: &str, value: &str)
        ensures
            final(self).deep_view() == old(self).deep_view().insert(key@, value@),
    {
        proof {
            use_type_invariant(&*self);
        }
        let ghost before = self.entries.deep_view();
        let mut entries: Vec<(String, String)> = Vec::new();
        std::mem::swap(&mut entries, &mut self.entries);
        let mut at: usize = 0;
        while at < entries.len()
            invariant_except_break
                at <= entries.len(),
            invariant
                entries.deep_view() == before,
                ascending(before),
                at <= entries.len(),
                forall|i: int| 0 <= i < at ==> precedes(#[trigger] before[i].0, key@),
            ensures
                at < entries.len() ==> precedes(key@, before[at as int].0) || key@
                    == before[at as int].0,
            decreases entries.len() - at,
        {
            match standing(entries[at].0.as_str(), key) {
                Standing::Before => {},
                _ => {
                    break;
                },
            }
            at = at + 1;
        }
        if at < entries.len() && entries[at].0 == key.to_owned() {
            let name = entries[at].0.clone();
            entries.set(at, (name, value.to_string()));
            proof {
                assert(entries.deep_view() =~= before.update(
                    at as int,
                    (before[at as int].0, value@),
                ));
                lemma_replaced(before, entries.deep_view(), at as int, value@);
            }
        } else {
            entries.insert(at, (key.to_string(), value.to_string()));
            proof {
                assert(entries.deep_view() =~= before.insert(at as int, (key@, value@)));
                lemma_inserted(before, entries.deep_view(), at as int, key@, value@);
            }
        }
        self.entries = entries;
    }

    /// The value of a key.
    pub fn get(&self, key: &str) -> (r: Option<&String>)
        ensures
            r is Some <==> self.deep_view().contains_key(key@),
            r matches Some(v) ==> v@ == self.deep_view()[key@],
    {
        proof {
            use_type_invariant(self);
        }
        let ghost all = self.entries.deep_view();
        let mut i: usize = 0;
        while i < self.entries.len()
            invariant
                i <= self.entries.len(),
                all == self.entries.deep_view(),
                ascending(all),
                forall|j: int| 0 <= j < i ==> (#[trigger] all[j]).0 != key@,
            decreases self.entries.len() - i,
        {
            if self.entries[i].0 == key.to_owned() {
                proof {
                    lemma_value_at(all, i as int);
                }
                return Some(&self.entries[i].1);
            }
            i = i + 1;
        }
        None
    }

    /// Whether a key is set.
    pub fn contains_key(&self, key: &str) -> (r: bool)
        ensures
            r == self.deep_view().contains_key(key@),
    {
        self.get(key).is_some()
    }

    /// The entries, in the order of their keys.
    pub fn pairs(&self) -> (r: &Vec<(String, String)>)
        ensures
            ascending(r.deep_view()),
            as_map(r.deep_view()) == self.deep_view(),
    {
        proof {
            use_type_invariant(self);
        }
        &self.entries
    }
}

impl Clone for StringMap {
    fn clone(&self) -> (r: StringMap)
        ensures
            r.deep_view() == self.deep_view(),
    {
        proof {
            use_type_invariant(self);
        }
        let mut entries: Vec<(String, String)> = Vec::new();
        let ghost all = self.entries.deep_view();
        let mut i: usize = 0;
        while i < self.entries.len()
            invariant
                i <= self.entries.len(),
                all == self.entries.deep_view(),
                entries@.len() == i,
                forall|j: int| 0 <= j < i ==> (#[trigger] entries@[j]).deep_view() == all[j],
            decreases self.entries.len() - i,
        {
            entries.push((self.entries[i].0.clone(), self.entries[i].1.clone()));
            i = i + 1;
        }
        assert(entries.deep_view() =~= all);
        StringMap { entries }
    }
}

// --- order -----------------------------------------------------------------

/// Without its first entry, a list stands for the map without that key.
proof fn lemma_without_first(entries: Seq<(Seq<char>, Seq<char>)>)
    requires
        ascending(entries),
        entries.len() > 0,
    ensures
        ascending(entries.drop_first()),
        as_map(entries.drop_first()) == as_map(entries).remove(entries[0].0),
{
    let first = entries[0].0;
    let rest = entries.drop_first();
    assert forall|i: int, j: int| 0 <= i < j < rest.len() implies precedes(
        #[trigger] rest[i].0,
        #[trigger] rest[j].0,
    ) by {
        assert(precedes(entries[i + 1].0, entries[j + 1].0));
    }
    let expected = as_map(entries).remove(first);
    assert forall|k: Seq<char>| as_map(rest).dom().contains(k) == expected.dom().contains(k) by {
        if has_key(rest, k) {
            let i = choose|i: int| 0 <= i < rest.len() && (#[trigger] rest[i]).0 == k;
            assert(entries[i + 1].0 == k);
            assert(precedes(entries[0].0, entries[i + 1].0));
            lemma_precedes_excludes(first, k);
        }
        if has_key(entries, k) && k != first {
            let i = choose|i: int| 0 <= i < entries.len() && (#[trigger] entries[i]).0 == k;
            assert(rest[i - 1].0 == k);
        }
    }
    assert forall|k: Seq<char>| as_map(rest).dom().contains(k) implies as_map(rest)[k]
        == expected[k] by {
        let i = choose|i: int| 0 <= i < rest.len() && (#[trigger] rest[i]).0 == k;
        lemma_value_at(rest, i);
        assert(entries[i + 1] == rest[i]);
        lemma_value_at(entries, i + 1);
    }
    assert(as_map(rest) =~= expected);
}

/// What a map renders to depends on what it holds alone: two lists of ascending
/// keys that stand for one map are the same list.
pub proof fn law_the_order_is_canonical(
    a: Seq<(Seq<char>, Seq<char>)>,
    b: Seq<(Seq<char>, Seq<char>)>,
)
    requires
        ascending(a),
        ascending(b),
        as_map(a) == as_map(b),
    ensures
        a == b,
    decreases a.len(),
{
    if a.len() == 0 {
        if b.len() > 0 {
            assert(has_key(b, b[0].0));
            assert(as_map(b).contains_key(b[0].0));
            assert(as_map(a).contains_key(b[0].0));
        }
        assert(a =~= b);
    } else {
        lemma_value_at(a, 0);
        assert(as_map(a).contains_key(a[0].0));
        assert(as_map(b).contains_key(a[0].0));
        let j = choose|j: int| 0 <= j < b.len() && (#[trigger] b[j]).0 == a[0].0;
        lemma_value_at(b, 0);
        assert(as_map(b).contains_key(b[0].0));
        assert(as_map(a).contains_key(b[0].0));
        let i = choose|i: int| 0 <= i < a.len() && (#[trigger] a[i]).0 == b[0].0;
        if j > 0 {
            assert(precedes(b[0].0, b[j].0));
            lemma_precedes_excludes(b[0].0, a[0].0);
            if i > 0 {
                assert(precedes(a[0].0, a[i].0));
            }
        }
        lemma_value_at(b, j);
        assert(as_map(a)[a[0].0] == as_map(b)[a[0].0]);
        assert(a[0] == b[0]);
        lemma_without_first(a);
        lemma_without_first(b);
        law_the_order_is_canonical(a.drop_first(), b.drop_first());
        assert(a =~= seq![a[0]] + a.drop_first());
        assert(b =~= seq![b[0]] + b.drop_first());
    }
}

} // verus!
