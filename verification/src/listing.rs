//! The order in which custom nodes are listed: stably sorted by a key, which
//! for the node list is the lowercased name.
use vstd::prelude::*;

use crate::nodes::NodeInfo;
use crate::text::{chars_of, lemma_lex_lt_transitive, lex_less, lex_lt, lowercase, lowercase_of};

verus! {

/// The key a node is listed by: its lowercased name.
pub open spec fn node_key(n: NodeInfo) -> Seq<char> {
    lowercase(n.name@)
}

/// `s` with `x` inserted after every entry whose key is not greater than
/// `x`'s and before the first one whose key is.
pub open spec fn insert_keyed(s: Seq<(Seq<char>, NodeInfo)>, x: (Seq<char>, NodeInfo)) -> Seq<
    (Seq<char>, NodeInfo),
>
    decreases s.len(),
{
    if s.len() == 0 {
        seq![x]
    } else if lex_lt(x.0, s[0].0) {
        seq![x] + s
    } else {
        seq![s[0]] + insert_keyed(s.drop_first(), x)
    }
}

/// `s` stably sorted by key: entries are inserted in their given order,
/// each after the ones with an equal key.
pub open spec fn sort_keyed(s: Seq<(Seq<char>, NodeInfo)>) -> Seq<(Seq<char>, NodeInfo)>
    decreases s.len(),
{
    if s.len() == 0 {
        s
    } else {
        insert_keyed(sort_keyed(s.drop_last()), s.last())
    }
}

/// The nodes of keyed entries, in order.
pub open spec fn nodes_of(s: Seq<(Seq<char>, NodeInfo)>) -> Seq<NodeInfo> {
    s.map_values(|e: (Seq<char>, NodeInfo)| e.1)
}

/// The texts of keyed entries.
pub open spec fn keyed_view(s: Seq<(String, NodeInfo)>) -> Seq<(Seq<char>, NodeInfo)> {
    s.map_values(|e: (String, NodeInfo)| (e.0@, e.1))
}

/// The nodes keyed by their lowercased names.
pub open spec fn with_name_keys(s: Seq<NodeInfo>) -> Seq<(Seq<char>, NodeInfo)> {
    s.map_values(|n: NodeInfo| (node_key(n), n))
}

/// `s` stably sorted by lowercased name.
pub open spec fn sorted_by_name(s: Seq<NodeInfo>) -> Seq<NodeInfo> {
    nodes_of(sort_keyed(with_name_keys(s)))
}

/// No entry comes after one whose key is greater.
pub open spec fn in_key_order(s: Seq<(Seq<char>, NodeInfo)>) -> bool {
    forall|i: int, j: int| 0 <= i < j < s.len() ==> !lex_lt(#[trigger] s[j].0, #[trigger] s[i].0)
}

/// No node comes after one whose lowercased name is greater.
pub open spec fn in_name_order(s: Seq<NodeInfo>) -> bool {
    forall|i: int, j: int|
        0 <= i < j < s.len() ==> !lex_lt(#[trigger] node_key(s[j]), #[trigger] node_key(s[i]))
}

/// Where [`insert_keyed`] puts `x`: the first entry with a greater key.
pub open spec fn insert_position(s: Seq<(Seq<char>, NodeInfo)>, x: (Seq<char>, NodeInfo)) -> int
    decreases s.len(),
{
    if s.len() == 0 || lex_lt(x.0, s[0].0) {
        0
    } else {
        1 + insert_position(s.drop_first(), x)
    }
}

proof fn lemma_insert_position(s: Seq<(Seq<char>, NodeInfo)>, x: (Seq<char>, NodeInfo))
    ensures
        0 <= insert_position(s, x) <= s.len(),
        forall|j: int| 0 <= j < insert_position(s, x) ==> !lex_lt(x.0, #[trigger] s[j].0),
        insert_position(s, x) < s.len() ==> lex_lt(x.0, s[insert_position(s, x)].0),
    decreases s.len(),
{
    if s.len() > 0 && !lex_lt(x.0, s[0].0) {
        lemma_insert_position(s.drop_first(), x);
        assert forall|j: int| 0 <= j < insert_position(s, x) implies !lex_lt(
            x.0,
            #[trigger] s[j].0,
        ) by {
            if j > 0 {
                assert(s[j] == s.drop_first()[j - 1]);
            }
        }
    }
}

proof fn lemma_insert_at(s: Seq<(Seq<char>, NodeInfo)>, x: (Seq<char>, NodeInfo), p: int)
    requires
        0 <= p <= s.len(),
        forall|j: int| 0 <= j < p ==> !lex_lt(x.0, #[trigger] s[j].0),
        p < s.len() ==> lex_lt(x.0, s[p].0),
    ensures
        insert_keyed(s, x) == s.insert(p, x),
    decreases s.len(),
{
    if s.len() == 0 {
        assert(s.insert(p, x) =~= seq![x]);
    } else if p == 0 {
        assert(s.insert(0, x) =~= seq![x] + s);
    } else {
        assert(!lex_lt(x.0, s[0].0));
        let t = s.drop_first();
        assert forall|j: int| 0 <= j < p - 1 implies !lex_lt(x.0, #[trigger] t[j].0) by {
            assert(t[j] == s[j + 1]);
        }
        lemma_insert_at(t, x, p - 1);
        assert(seq![s[0]] + t.insert(p - 1, x) =~= s.insert(p, x));
    }
}

proof fn lemma_lex_lt_irreflexive(a: Seq<char>)
    ensures
        !lex_lt(a, a),
    decreases a.len(),
{
    if a.len() > 0 {
        lemma_lex_lt_irreflexive(a.drop_first());
    }
}

proof fn lemma_insert_keeps_order(s: Seq<(Seq<char>, NodeInfo)>, x: (Seq<char>, NodeInfo))
    requires
        in_key_order(s),
    ensures
        in_key_order(insert_keyed(s, x)),
{
    let p = insert_position(s, x);
    lemma_insert_position(s, x);
    lemma_insert_at(s, x, p);
    let r = s.insert(p, x);
    assert forall|i: int, j: int| 0 <= i < j < r.len() implies !lex_lt(
        #[trigger] r[j].0,
        #[trigger] r[i].0,
    ) by {
        if i < p && j == p {
        } else if i == p && j > p {
            if lex_lt(r[j].0, x.0) {
                assert(r[j] == s[j - 1]);
                lemma_lex_lt_transitive(s[j - 1].0, x.0, s[p].0);
                if j - 1 == p {
                    lemma_lex_lt_irreflexive(s[p].0);
                } else {
                    assert(!lex_lt(s[j - 1].0, s[p].0));
                }
            }
        } else {
            let si = if i < p {
                i
            } else {
                i - 1
            };
            let sj = if j < p {
                j
            } else {
                j - 1
            };
            assert(r[i] == s[si]);
            assert(r[j] == s[sj]);
        }
    }
}

/// Law: sorting by key puts the entries in key order.
pub proof fn keyed_sort_is_in_key_order(s: Seq<(Seq<char>, NodeInfo)>)
    ensures
        in_key_order(sort_keyed(s)),
    decreases s.len(),
{
    if s.len() > 0 {
        keyed_sort_is_in_key_order(s.drop_last());
        lemma_insert_keeps_order(sort_keyed(s.drop_last()), s.last());
    }
}

/// Law: sorting by key keeps every entry exactly as often as it was given,
/// and so every node too.
pub proof fn keyed_sort_is_a_permutation(s: Seq<(Seq<char>, NodeInfo)>)
    ensures
        sort_keyed(s).to_multiset() == s.to_multiset(),
        nodes_of(sort_keyed(s)).to_multiset() == nodes_of(s).to_multiset(),
    decreases s.len(),
{
    broadcast use vstd::seq_lib::group_to_multiset_ensures;

    if s.len() > 0 {
        let t = sort_keyed(s.drop_last());
        let x = s.last();
        keyed_sort_is_a_permutation(s.drop_last());
        let p = insert_position(t, x);
        lemma_insert_position(t, x);
        lemma_insert_at(t, x, p);
        vstd::seq_lib::to_multiset_insert(t, p, x);
        assert(nodes_of(t.insert(p, x)) =~= nodes_of(t).insert(p, x.1));
        vstd::seq_lib::to_multiset_insert(nodes_of(t), p, x.1);
        assert(s.drop_last().push(x) =~= s);
        assert(nodes_of(s.drop_last()).push(x.1) =~= nodes_of(s));
    }
}

/// Law: the node list is in lowercased-name order.
pub proof fn sorted_nodes_are_in_name_order(s: Seq<NodeInfo>)
    ensures
        in_name_order(sorted_by_name(s)),
{
    broadcast use vstd::seq_lib::group_to_multiset_ensures;

    let k = with_name_keys(s);
    let t = sort_keyed(k);
    keyed_sort_is_in_key_order(k);
    keyed_sort_is_a_permutation(k);
    assert forall|i: int| 0 <= i < t.len() implies #[trigger] t[i].0 == node_key(t[i].1) by {
        assert(t.contains(t[i]));
        assert(t.to_multiset().count(t[i]) > 0);
        assert(k.contains(t[i]));
        let idx = choose|idx: int| 0 <= idx < k.len() && k[idx] == t[i];
        assert(k[idx] == (node_key(s[idx]), s[idx]));
    }
    let r = sorted_by_name(s);
    assert forall|i: int, j: int| 0 <= i < j < r.len() implies !lex_lt(
        #[trigger] node_key(r[j]),
        #[trigger] node_key(r[i]),
    ) by {
        assert(r[i] == t[i].1);
        assert(r[j] == t[j].1);
        assert(t[i].0 == node_key(t[i].1));
        assert(t[j].0 == node_key(t[j].1));
    }
}

/// Law: the node list holds every node exactly as often as it was given.
pub proof fn sorted_nodes_are_a_permutation(s: Seq<NodeInfo>)
    ensures
        sorted_by_name(s).to_multiset() == s.to_multiset(),
{
    keyed_sort_is_a_permutation(with_name_keys(s));
    assert(nodes_of(with_name_keys(s)) =~= s);
}

/// Keyed entries built from parallel lists of keys and nodes.
pub open spec fn pair_up(keys: Seq<Vec<char>>, nodes: Seq<NodeInfo>) -> Seq<(Seq<char>, NodeInfo)> {
    Seq::new(nodes.len(), |i: int| (keys[i]@, nodes[i]))
}

/// Puts keyed nodes in the order of their keys, stably; the key of each
/// entry is given with it.
pub fn sort_by_keys(entries: Vec<(String, NodeInfo)>) -> (r: Vec<NodeInfo>)
    ensures
        r@ == nodes_of(sort_keyed(keyed_view(entries@))),
{
    let ghost given = keyed_view(entries@);
    let total = entries.len();
    let mut rest = entries;
    let mut out: Vec<NodeInfo> = Vec::new();
    let mut keys: Vec<Vec<char>> = Vec::new();
    let mut done: usize = 0;
    assert(given.take(0) =~= Seq::<(Seq<char>, NodeInfo)>::empty());
    assert(pair_up(keys@, out@) =~= Seq::<(Seq<char>, NodeInfo)>::empty());
    while rest.len() > 0
        invariant
            done + rest@.len() == given.len(),
            given.len() == total,
            keyed_view(rest@) == given.skip(done as int),
            keys.len() == out.len(),
            pair_up(keys@, out@) == sort_keyed(given.take(done as int)),
        decreases rest@.len(),
    {
        let ghost rest_before = rest@;
        let (key_text, x) = rest.remove(0);
        assert(keyed_view(rest_before)[0] == given.skip(done as int)[0]);
        assert forall|i: int| 0 <= i < rest@.len() implies #[trigger] keyed_view(rest@)[i]
            == given.skip(done + 1)[i] by {
            assert(rest@[i] == rest_before[i + 1]);
            assert(keyed_view(rest_before)[i + 1] == given.skip(done as int)[i + 1]);
        }
        assert(keyed_view(rest@) =~= given.skip(done + 1));
        let key = chars_of(key_text.as_str());
        let ghost entry = (key@, x);
        assert(entry == given[done as int]);
        let ghost sorted = pair_up(keys@, out@);
        let mut p: usize = 0;
        while p < out.len() && !lex_less(&key, &keys[p])
            invariant
                0 <= p <= out.len(),
                keys.len() == out.len(),
                sorted == pair_up(keys@, out@),
                forall|j: int| 0 <= j < p ==> !lex_lt(key@, #[trigger] sorted[j].0),
            decreases out.len() - p,
        {
            p = p + 1;
        }
        proof {
            lemma_insert_at(sorted, entry, p as int);
            assert(given.take(done + 1).drop_last() =~= given.take(done as int));
        }
        out.insert(p, x);
        keys.insert(p, key);
        done = done + 1;
        assert(pair_up(keys@, out@) =~= sorted.insert(p as int, entry));
    }
    assert(given.take(done as int) =~= given);
    assert(nodes_of(pair_up(keys@, out@)) =~= out@);
    out
}

/// Puts the nodes in listing order: stably sorted by lowercased name.
pub fn sort_nodes(nodes: Vec<NodeInfo>) -> (r: Vec<NodeInfo>)
    ensures
        r@ == sorted_by_name(nodes@),
{
    let ghost given = nodes@;
    let total = nodes.len();
    let mut rest = nodes;
    let mut entries: Vec<(String, NodeInfo)> = Vec::new();
    let mut done: usize = 0;
    assert(keyed_view(entries@) =~= with_name_keys(given.take(0)));
    while rest.len() > 0
        invariant
            done + rest@.len() == given.len(),
            given.len() == total,
            rest@ == given.skip(done as int),
            keyed_view(entries@) == with_name_keys(given.take(done as int)),
        decreases rest@.len(),
    {
        let x = rest.remove(0);
        assert(x == given[done as int]);
        assert(rest@ =~= given.skip(done + 1));
        let key = lowercase_of(x.name.as_str());
        let ghost entries_before = entries@;
        let ghost key_view = key@;
        entries.push((key, x));
        assert(keyed_view(entries@) =~= keyed_view(entries_before).push((key_view, x)));
        assert(given.take(done + 1) =~= given.take(done as int).push(x));
        assert(with_name_keys(given.take(done + 1)) =~= with_name_keys(given.take(done as int)).push(
            (node_key(x), x),
        ));
        done = done + 1;
        assert(keyed_view(entries@) =~= with_name_keys(given.take(done as int)));
    }
    assert(given.take(done as int) =~= given);
    sort_by_keys(entries)
}

} // verus!
