//! What holds of attributes: the order of their names and the mapping they list.
use vstd::prelude::*;

use crate::attributes;

verus! {

/// Two texts that part at some character come in the order of the characters
/// there; a text comes before any longer one that begins with it, and none before
/// itself.
pub proof fn law_dictionary_order(
    common: Seq<char>,
    c: char,
    rest: Seq<char>,
    d: char,
    other: Seq<char>,
)
    ensures
        c != d ==> (attributes::precedes(common + seq![c] + rest, common + seq![d] + other) <==> c
            < d),
        attributes::precedes(common, common + seq![c] + rest),
        !attributes::precedes(common + seq![c] + rest, common),
        !attributes::precedes(common, common),
{
    let a = common + seq![c] + rest;
    let b = common + seq![d] + other;
    let n = common.len() as int;
    assert(a[n] == c && b[n] == d);
    assert forall|i: int| 0 <= i < n implies #[trigger] a[i] == b[i] && a[i] == common[i] by {}
    if c < d {
        assert(attributes::parts_before(a, b, n));
    }
    if c > d && attributes::precedes(a, b) {
        let k = choose|k: int| attributes::parts_before(a, b, k);
        if k < n {
            assert(a[k] == b[k]);
        }
        assert(false);
    }
    assert(attributes::parts_before(common, a, n));
    if attributes::precedes(a, common) {
        let k = choose|k: int| attributes::parts_before(a, common, k);
        assert(a[k] == common[k]);
        assert(false);
    }
}

/// Of two different texts one comes before the other.
pub proof fn law_order_is_total(a: Seq<char>, b: Seq<char>)
    ensures
        a == b || attributes::precedes(a, b) || attributes::precedes(b, a),
{
    lemma_total_from(a, b, 0);
}

/// Two texts that agree on their first `k` characters are equal or in order.
proof fn lemma_total_from(a: Seq<char>, b: Seq<char>, k: int)
    requires
        attributes::agree_up_to(a, b, k),
    ensures
        a == b || attributes::precedes(a, b) || attributes::precedes(b, a),
    decreases a.len() - k,
{
    if k < a.len() && k < b.len() && a[k] == b[k] {
        lemma_total_from(a, b, k + 1);
    } else if k == a.len() && k == b.len() {
        assert(a =~= b);
    } else if k == a.len() || (k < b.len() && a[k] < b[k]) {
        assert(attributes::parts_before(a, b, k));
    } else {
        assert(attributes::parts_before(b, a, k));
    }
}

/// An entry whose place is before that of another has a name that comes before
/// the other's.
pub proof fn law_entries_are_in_order(entries: Seq<(String, String)>, i: int, j: int)
    requires
        0 <= i < j < entries.len(),
        attributes::in_key_order(attributes::text_pairs(entries)),
    ensures
        attributes::precedes(entries[i].0@, entries[j].0@),
{
    let pairs = attributes::text_pairs(entries);
    assert(attributes::precedes(pairs[i].0, pairs[j].0));
}

/// A listing has one pair for each entry, which is the entry's name and value.
pub proof fn law_listing_is_complete(entries: Seq<(String, String)>)
    ensures
        attributes::text_pairs(entries).len() == entries.len(),
        forall|i: int|
            0 <= i < entries.len() ==> #[trigger] attributes::text_pairs(entries)[i] == (
                entries[i].0@,
                entries[i].1@,
            ),
{
}

/// Ordered pairs map a name to a value exactly where they hold the two side by
/// side.
pub proof fn law_mapping(
    pairs: Seq<(Seq<char>, Seq<char>)>,
    key: Seq<char>,
    value: Seq<char>,
)
    requires
        attributes::in_key_order(pairs),
    ensures
        attributes::pairs_map(pairs).contains_pair(key, value) <==> pairs.contains((key, value)),
        attributes::pairs_map(pairs).contains_key(key) <==> exists|i: int|
            0 <= i < pairs.len() && (#[trigger] pairs[i]).0 == key,
{
    attributes::lemma_precedes_irreflexive(key);
    if pairs.contains((key, value)) {
        let i = pairs.index_of((key, value));
        assert(pairs[i].0 == key);
        let c = choose|c: int| 0 <= c < pairs.len() && (#[trigger] pairs[c]).0 == key;
        assert(c == i) by {
            if c < i {
                assert(attributes::precedes(pairs[c].0, pairs[i].0));
            } else if i < c {
                assert(attributes::precedes(pairs[i].0, pairs[c].0));
            }
        }
    }
    if attributes::pairs_map(pairs).contains_pair(key, value) {
        let c = choose|c: int| 0 <= c < pairs.len() && (#[trigger] pairs[c]).0 == key;
        assert(pairs[c] == (key, value));
    }
}

/// The attributes of an identity map a name to a value exactly where they list
/// the two side by side.
pub proof fn law_attributes_are_listed(
    attributes: crate::attributes::Attributes,
    key: Seq<char>,
    value: Seq<char>,
)
    requires
        attributes::in_key_order(attributes.pairs()),
    ensures
        attributes@.contains_pair(key, value) <==> attributes.pairs().contains((key, value)),
{
    law_mapping(attributes.pairs(), key, value);
}

} // verus!
