//! Identity attributes: texts keyed by name, kept in the order of their names.
use vstd::prelude::*;

use crate::text;

verus! {

/// The two texts agree on their first `k` characters.
pub open spec fn agree_up_to(a: Seq<char>, b: Seq<char>, k: int) -> bool {
    &&& 0 <= k <= a.len()
    &&& k <= b.len()
    &&& forall|i: int| 0 <= i < k ==> #[trigger] a[i] == b[i]
}

/// `a` comes before `b` in the dictionary order by code points, and the two part
/// at position `k`.
pub open spec fn parts_before(a: Seq<char>, b: Seq<char>, k: int) -> bool {
    &&& agree_up_to(a, b, k)
    &&& k < b.len()
    &&& k == a.len() || a[k] < b[k]
}

/// `a` comes before `b` in the dictionary order by code points.
pub open spec fn precedes(a: Seq<char>, b: Seq<char>) -> bool {
    exists|k: int| parts_before(a, b, k)
}

/// No text comes before itself.
pub proof fn lemma_precedes_irreflexive(a: Seq<char>)
    ensures
        !precedes(a, a),
{
}

/// The dictionary order is transitive.
pub proof fn lemma_precedes_transitive(a: Seq<char>, b: Seq<char>, c: Seq<char>)
    requires
        precedes(a, b),
        precedes(b, c),
    ensures
        precedes(a, c),
{
    let k1 = choose|k: int| parts_before(a, b, k);
    let k2 = choose|k: int| parts_before(b, c, k);
    let k = if k1 <= k2 {
        k1
    } else {
        k2
    };
    assert(parts_before(a, c, k));
}

/// How one text stands to another in the dictionary order.
enum KeyOrder {
    Before,
    Same,
    After,
}

/// Compares two texts in the dictionary order by code points.
fn order_of(a: &str, b: &str) -> (r: KeyOrder)
    ensures
        match r {
            KeyOrder::Before => precedes(a@, b@),
            KeyOrder::Same => a@ == b@,
            KeyOrder::After => precedes(b@, a@),
        },
{
    let xs = text::chars_of(a);
    let ys = text::chars_of(b);
    let mut k: usize = 0;
    while k < xs.len() && k < ys.len()
        invariant
            xs@ == a@,
            ys@ == b@,
            agree_up_to(a@, b@, k as int),
        decreases xs.len() - k,
    {
        if xs[k] != ys[k] {
            if xs[k] < ys[k] {
                assert(parts_before(a@, b@, k as int));
                return KeyOrder::Before;
            } else {
                assert(parts_before(b@, a@, k as int));
                return KeyOrder::After;
            }
        }
        k += 1;
    }
    if k < ys.len() {
        assert(parts_before(a@, b@, k as int));
        KeyOrder::Before
    } else if k < xs.len() {
        assert(parts_before(b@, a@, k as int));
        KeyOrder::After
    } else {
        KeyOrder::Same
    }
}

/// Attributes of an identity, each under a name that occurs once.
#[derive(Debug)]
pub struct Attributes {
    entries: Vec<(String, String)>,
}

/// Names and values in the order in which they are kept.
pub open spec fn text_pairs(entries: Seq<(String, String)>) -> Seq<(Seq<char>, Seq<char>)> {
    entries.map_values(|e: (String, String)| (e.0@, e.1@))
}

/// Each name comes before the one that follows it.
pub open spec fn in_key_order(pairs: Seq<(Seq<char>, Seq<char>)>) -> bool {
    forall|i: int, j: int|
        0 <= i < j < pairs.len() ==> precedes(#[trigger] pairs[i].0, #[trigger] pairs[j].0)
}

/// `pairs` holds `key`.
pub open spec fn has_key(pairs: Seq<(Seq<char>, Seq<char>)>, key: Seq<char>) -> bool {
    exists|i: int| 0 <= i < pairs.len() && (#[trigger] pairs[i]).0 == key
}

/// The value that stands beside `key` in `pairs`.
pub open spec fn value_at(pairs: Seq<(Seq<char>, Seq<char>)>, key: Seq<char>) -> Seq<char> {
    pairs[choose|i: int| 0 <= i < pairs.len() && (#[trigger] pairs[i]).0 == key].1
}

/// The mapping that `pairs` lists.
pub open spec fn pairs_map(pairs: Seq<(Seq<char>, Seq<char>)>) -> Map<Seq<char>, Seq<char>> {
    Map::new(|key: Seq<char>| has_key(pairs, key), |key: Seq<char>| value_at(pairs, key))
}

/// Ordered pairs map each of their names to the value beside it.
proof fn lemma_value_at(pairs: Seq<(Seq<char>, Seq<char>)>, i: int)
    requires
        in_key_order(pairs),
        0 <= i < pairs.len(),
    ensures
        pairs_map(pairs).contains_key(pairs[i].0),
        pairs_map(pairs)[pairs[i].0] == pairs[i].1,
{
    let key = pairs[i].0;
    lemma_precedes_irreflexive(key);
}

/// Putting a value in the place of another changes the mapping at its name only.
proof fn lemma_replaced(pairs: Seq<(Seq<char>, Seq<char>)>, i: int, value: Seq<char>)
    requires
        in_key_order(pairs),
        0 <= i < pairs.len(),
    ensures
        in_key_order(pairs.update(i, (pairs[i].0, value))),
        pairs_map(pairs.update(i, (pairs[i].0, value))) == pairs_map(pairs).insert(
            pairs[i].0,
            value,
        ),
{
    let key = pairs[i].0;
    let after = pairs.update(i, (key, value));
    assert(in_key_order(after));
    lemma_value_at(after, i);
    assert forall|k: Seq<char>| #[trigger]
        pairs_map(after).contains_key(k) <==> pairs_map(pairs).insert(key, value).contains_key(
            k,
        ) by {
        if has_key(pairs, k) {
            let c = choose|c: int| 0 <= c < pairs.len() && (#[trigger] pairs[c]).0 == k;
            assert(after[c].0 == k);
        }
    }
    assert forall|k: Seq<char>| #[trigger] pairs_map(after).contains_key(k) implies pairs_map(
        after,
    )[k] == pairs_map(pairs).insert(key, value)[k] by {
        if k != key {
            let c = choose|c: int| 0 <= c < after.len() && (#[trigger] after[c]).0 == k;
            lemma_value_at(after, c);
            lemma_value_at(pairs, c);
        }
    }
}

/// Inserting a new name in its place adds it to the mapping.
proof fn lemma_inserted(
    pairs: Seq<(Seq<char>, Seq<char>)>,
    i: int,
    key: Seq<char>,
    value: Seq<char>,
)
    requires
        in_key_order(pairs),
        0 <= i <= pairs.len(),
        forall|j: int| 0 <= j < i ==> precedes((#[trigger] pairs[j]).0, key),
        forall|j: int| i <= j < pairs.len() ==> precedes(key, (#[trigger] pairs[j]).0),
    ensures
        in_key_order(pairs.insert(i, (key, value))),
        pairs_map(pairs.insert(i, (key, value))) == pairs_map(pairs).insert(key, value),
{
    let after = pairs.insert(i, (key, value));
    assert(in_key_order(after));
    lemma_value_at(after, i);
    assert forall|k: Seq<char>| #[trigger]
        pairs_map(after).contains_key(k) <==> pairs_map(pairs).insert(key, value).contains_key(
            k,
        ) by {
        if has_key(after, k) && k != key {
            let c = choose|c: int| 0 <= c < after.len() && (#[trigger] after[c]).0 == k;
            if c < i {
                assert(pairs[c].0 == k);
            } else {
                assert(pairs[c - 1].0 == k);
            }
        }
        if has_key(pairs, k) {
            let c = choose|c: int| 0 <= c < pairs.len() && (#[trigger] pairs[c]).0 == k;
            if c < i {
                assert(after[c].0 == k);
            } else {
                assert(after[c + 1].0 == k);
            }
        }
    }
    assert forall|k: Seq<char>| #[trigger] pairs_map(after).contains_key(k) implies pairs_map(
        after,
    )[k] == pairs_map(pairs).insert(key, value)[k] by {
        if k != key {
            let c = choose|c: int| 0 <= c < after.len() && (#[trigger] after[c]).0 == k;
            lemma_value_at(after, c);
            if c < i {
                lemma_value_at(pairs, c);
            } else {
                lemma_value_at(pairs, c - 1);
            }
        }
    }
}

/// A text that comes before the name at `i` of an ordered list comes before every
/// name from there on.
proof fn lemma_place(pairs: Seq<(Seq<char>, Seq<char>)>, i: int, key: Seq<char>)
    requires
        in_key_order(pairs),
        0 <= i < pairs.len(),
        precedes(key, pairs[i].0),
    ensures
        forall|j: int| i <= j < pairs.len() ==> precedes(key, (#[trigger] pairs[j]).0),
{
    assert forall|j: int| i <= j < pairs.len() implies precedes(key, (#[trigger] pairs[j]).0) by {
        if i < j {
            lemma_precedes_transitive(key, pairs[i].0, pairs[j].0);
        }
    }
}

impl Attributes {
    /// Names and values in the order in which they are kept.
    pub closed spec fn pairs(&self) -> Seq<(Seq<char>, Seq<char>)> {
        text_pairs(self.entries@)
    }

    /// The names are in order, so that none occurs twice.
    #[verifier::type_invariant]
    spec fn inv(self) -> bool {
        in_key_order(self.pairs())
    }

    /// No attributes.
    pub fn new() -> (r: Attributes)
        ensures
            r.pairs().len() == 0,
            r@ == Map::<Seq<char>, Seq<char>>::empty(),
    {
        Attributes { entries: Vec::new() }
    }

    /// Puts `value` under `key`, in the place of what stood there before.
    pub fn insert(&mut self, key: String, value: String)
        ensures
            final(self)@ == old(self)@.insert(key@, value@),
    {
        proof {
            use_type_invariant(&*self);
        }
        let ghost before = self.pairs();
        let mut entries: Vec<(String, String)> = Vec::new();
        std::mem::swap(&mut entries, &mut self.entries);
        let mut i: usize = 0;
        while i < entries.len()
            invariant
                i <= entries.len(),
                before == text_pairs(entries@),
                before == old(self).pairs(),
                in_key_order(before),
                forall|j: int| 0 <= j < i ==> precedes((#[trigger] before[j]).0, key@),
            decreases entries.len() - i,
        {
            match order_of(entries[i].0.as_str(), key.as_str()) {
                KeyOrder::Before => {
                    i += 1;
                },
                KeyOrder::Same => {
                    proof {
                        lemma_replaced(before, i as int, value@);
                    }
                    entries.set(i, (key, value));
                    assert(text_pairs(entries@) =~= before.update(i as int, (key@, value@)));
                    self.entries = entries;
                    return;
                },
                KeyOrder::After => {
                    proof {
                        lemma_place(before, i as int, key@);
                        lemma_inserted(before, i as int, key@, value@);
                    }
                    entries.insert(i, (key, value));
                    assert(text_pairs(entries@) =~= before.insert(i as int, (key@, value@)));
                    self.entries = entries;
                    return;
                },
            }
        }
        proof {
            lemma_inserted(before, i as int, key@, value@);
        }
        entries.insert(i, (key, value));
        assert(text_pairs(entries@) =~= before.insert(i as int, (key@, value@)));
        self.entries = entries;
    }

    /// The value under `key`.
    pub fn get(&self, key: &str) -> (r: Option<&str>)
        ensures
            match r {
                Some(value) => self@.contains_key(key@) && self@[key@] == value@,
                None => !self@.contains_key(key@),
            },
    {
        proof {
            use_type_invariant(self);
        }
        let mut i: usize = 0;
        while i < self.entries.len()
            invariant
                i <= self.entries.len(),
                in_key_order(self.pairs()),
                forall|j: int| 0 <= j < i ==> (#[trigger] self.pairs()[j]).0 != key@,
            decreases self.entries.len() - i,
        {
            if text::eq_text(self.entries[i].0.as_str(), key) {
                proof {
                    lemma_value_at(self.pairs(), i as int);
                }
                return Some(self.entries[i].1.as_str());
            }
            i += 1;
        }
        None
    }

    /// The attributes, in the order of their names.
    pub fn entries(&self) -> (r: &Vec<(String, String)>)
        ensures
            text_pairs(r@) == self.pairs(),
            in_key_order(self.pairs()),
    {
        proof {
            use_type_invariant(self);
        }
        &self.entries
    }
}

impl View for Attributes {
    type V = Map<Seq<char>, Seq<char>>;

    open spec fn view(&self) -> Map<Seq<char>, Seq<char>> {
        pairs_map(self.pairs())
    }
}

} // verus!
