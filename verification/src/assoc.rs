//! Insertion-ordered association lists keyed by node identity: the analyzer's
//! per-scope bookkeeping uses them so that lookup order is fixed by the walk
//! itself and nothing about a run depends on hash iteration order.
use vstd::prelude::*;

use crate::ast::NodeID;

verus! {

/// The value at the first entry with the given key, if any.
pub open spec fn spec_assoc_get<V>(s: Seq<(NodeID, V)>, id: NodeID) -> Option<V>
    decreases s.len(),
{
    if s.len() == 0 {
        None
    } else if s[0].0 == id {
        Some(s[0].1)
    } else {
        spec_assoc_get(s.skip(1), id)
    }
}

/// The list with the first entry for the key replaced by `v`, or with
/// `(id, v)` appended when the key is absent.
pub open spec fn spec_assoc_put<V>(s: Seq<(NodeID, V)>, id: NodeID, v: V) -> Seq<(NodeID, V)>
    decreases s.len(),
{
    if s.len() == 0 {
        seq![(id, v)]
    } else if s[0].0 == id {
        seq![(id, v)] + s.skip(1)
    } else {
        seq![s[0]] + spec_assoc_put(s.skip(1), id, v)
    }
}

pub proof fn lemma_assoc_get_at<V>(s: Seq<(NodeID, V)>, id: NodeID, i: int)
    requires
        0 <= i < s.len(),
        s[i].0 == id,
        forall|j: int| 0 <= j < i ==> s[j].0 != id,
    ensures
        spec_assoc_get(s, id) == Some(s[i].1),
    decreases i,
{
    if i > 0 {
        assert(forall|j: int| 0 <= j < i - 1 ==> #[trigger] s.skip(1)[j].0 == s[j + 1].0);
        lemma_assoc_get_at(s.skip(1), id, i - 1);
        assert(s.skip(1)[i - 1] == s[i]);
    }
}

pub proof fn lemma_assoc_get_none<V>(s: Seq<(NodeID, V)>, id: NodeID)
    requires
        forall|j: int| 0 <= j < s.len() ==> s[j].0 != id,
    ensures
        spec_assoc_get(s, id) is None,
    decreases s.len(),
{
    if s.len() > 0 {
        assert(forall|j: int|
            0 <= j < s.skip(1).len() ==> #[trigger] s.skip(1)[j].0 == s[j + 1].0);
        lemma_assoc_get_none(s.skip(1), id);
    }
}

/// Replacing the first entry holding the key is the same as updating the list
/// in place at that entry.
pub proof fn lemma_assoc_put_update<V>(s: Seq<(NodeID, V)>, id: NodeID, v: V, i: int)
    requires
        0 <= i < s.len(),
        s[i].0 == id,
        forall|j: int| 0 <= j < i ==> s[j].0 != id,
    ensures
        spec_assoc_put(s, id, v) == s.update(i, (id, v)),
    decreases i,
{
    if i == 0 {
        assert(seq![(id, v)] + s.skip(1) =~= s.update(0, (id, v)));
    } else {
        assert(forall|j: int| 0 <= j < i - 1 ==> #[trigger] s.skip(1)[j].0 == s[j + 1].0);
        lemma_assoc_put_update(s.skip(1), id, v, i - 1);
        assert(s.skip(1)[i - 1] == s[i]);
        assert(seq![s[0]] + s.skip(1).update(i - 1, (id, v)) =~= s.update(i, (id, v)));
    }
}

/// Putting an absent key appends its entry.
pub proof fn lemma_assoc_put_append<V>(s: Seq<(NodeID, V)>, id: NodeID, v: V)
    requires
        forall|j: int| 0 <= j < s.len() ==> s[j].0 != id,
    ensures
        spec_assoc_put(s, id, v) == s.push((id, v)),
    decreases s.len(),
{
    if s.len() == 0 {
        assert(seq![(id, v)] =~= s.push((id, v)));
    } else {
        assert(forall|j: int|
            0 <= j < s.skip(1).len() ==> #[trigger] s.skip(1)[j].0 == s[j + 1].0);
        lemma_assoc_put_append(s.skip(1), id, v);
        assert(seq![s[0]] + s.skip(1).push((id, v)) =~= s.push((id, v)));
    }
}

/// After a put, the key holds the new value.
pub proof fn lemma_assoc_get_put_same<V>(s: Seq<(NodeID, V)>, id: NodeID, v: V)
    ensures
        spec_assoc_get(spec_assoc_put(s, id, v), id) == Some(v),
    decreases s.len(),
{
    if s.len() != 0 && s[0].0 != id {
        lemma_assoc_get_put_same(s.skip(1), id, v);
        assert((seq![s[0]] + spec_assoc_put(s.skip(1), id, v)).skip(1) =~= spec_assoc_put(
            s.skip(1),
            id,
            v,
        ));
    } else if s.len() != 0 {
        assert((seq![(id, v)] + s.skip(1))[0] == (id, v));
    }
}

/// A successful lookup names some entry of the list.
pub proof fn lemma_assoc_get_some_index<V>(s: Seq<(NodeID, V)>, id: NodeID)
    requires
        spec_assoc_get(s, id) is Some,
    ensures
        exists|i: int|
            0 <= i < s.len() && (#[trigger] s[i]) == (id, spec_assoc_get(s, id)->Some_0),
    decreases s.len(),
{
    if s.len() != 0 && s[0].0 != id {
        lemma_assoc_get_some_index(s.skip(1), id);
        let i = choose|i: int|
            0 <= i < s.skip(1).len() && (#[trigger] s.skip(1)[i]) == (
                id,
                spec_assoc_get(s.skip(1), id)->Some_0,
            );
        assert(s[i + 1] == s.skip(1)[i]);
    }
}

/// A put leaves every other key's value unchanged.
pub proof fn lemma_assoc_get_put_other<V>(s: Seq<(NodeID, V)>, id: NodeID, v: V, other: NodeID)
    requires
        other != id,
    ensures
        spec_assoc_get(spec_assoc_put(s, id, v), other) == spec_assoc_get(s, other),
    decreases s.len(),
{
    if s.len() == 0 {
        assert(seq![(id, v)][0].0 == id);
        assert(seq![(id, v)].skip(1) =~= Seq::<(NodeID, V)>::empty());
        assert(spec_assoc_get(Seq::<(NodeID, V)>::empty(), other) is None);
        assert(spec_assoc_get(spec_assoc_put(s, id, v), other) is None);
    } else if s[0].0 == id {
        assert((seq![(id, v)] + s.skip(1))[0] == (id, v));
        assert((seq![(id, v)] + s.skip(1)).skip(1) =~= s.skip(1));
        assert(spec_assoc_get(spec_assoc_put(s, id, v), other) == spec_assoc_get(
            s.skip(1),
            other,
        ));
        assert(spec_assoc_get(s, other) == spec_assoc_get(s.skip(1), other));
    } else {
        lemma_assoc_get_put_other(s.skip(1), id, v, other);
        assert((seq![s[0]] + spec_assoc_put(s.skip(1), id, v))[0] == s[0]);
        assert((seq![s[0]] + spec_assoc_put(s.skip(1), id, v)).skip(1) =~= spec_assoc_put(
            s.skip(1),
            id,
            v,
        ));
    }
}

/// Appending an entry leaves every present key's lookup unchanged.
pub proof fn lemma_assoc_get_push_present<V>(s: Seq<(NodeID, V)>, e: (NodeID, V), id: NodeID)
    requires
        spec_assoc_get(s, id) is Some,
    ensures
        spec_assoc_get(s.push(e), id) == spec_assoc_get(s, id),
    decreases s.len(),
{
    if s.len() != 0 && s[0].0 != id {
        lemma_assoc_get_push_present(s.skip(1), e, id);
        assert(s.push(e).skip(1) =~= s.skip(1).push(e));
    } else if s.len() != 0 {
        assert(s.push(e)[0] == s[0]);
    }
}

/// The index of the first entry with the given key; meaningful only when
/// the key is present.
pub open spec fn spec_assoc_first_index<V>(s: Seq<(NodeID, V)>, id: NodeID) -> int
    decreases s.len(),
{
    if s.len() == 0 {
        0
    } else if s[0].0 == id {
        0
    } else {
        1 + spec_assoc_first_index(s.skip(1), id)
    }
}

/// When the key is present, its first index is in range, holds the looked-up
/// value, and nothing before it holds the key.
pub proof fn lemma_assoc_first_index<V>(s: Seq<(NodeID, V)>, id: NodeID)
    requires
        spec_assoc_get(s, id) is Some,
    ensures
        0 <= spec_assoc_first_index(s, id) < s.len(),
        s[spec_assoc_first_index(s, id)] == (id, spec_assoc_get(s, id)->Some_0),
        forall|j: int| 0 <= j < spec_assoc_first_index(s, id) ==> s[j].0 != id,
    decreases s.len(),
{
    if s.len() != 0 && s[0].0 != id {
        lemma_assoc_first_index(s.skip(1), id);
        let i = spec_assoc_first_index(s.skip(1), id);
        assert(s[i + 1] == s.skip(1)[i]);
        assert forall|j: int| 0 <= j < spec_assoc_first_index(s, id) implies s[j].0 != id by {
            if j > 0 {
                assert(s.skip(1)[j - 1] == s[j]);
            }
        }
    }
}

/// Finds the first entry with the given key.
pub fn assoc_index<V>(entries: &Vec<(NodeID, V)>, id: NodeID) -> (r: Option<usize>)
    ensures
        match r {
            Some(i) => 0 <= i < entries@.len() && entries@[i as int].0 == id && (forall|j: int|
                0 <= j < i ==> entries@[j].0 != id),
            None => forall|j: int| 0 <= j < entries@.len() ==> entries@[j].0 != id,
        },
{
    let mut i: usize = 0;
    while i < entries.len()
        invariant
            i <= entries@.len(),
            forall|j: int| 0 <= j < i ==> entries@[j].0 != id,
        decreases entries.len() - i,
    {
        if entries[i].0 == id {
            return Some(i);
        }
        i = i + 1;
    }
    None
}

/// Whether the list of identities holds the given one.
pub fn contains_id(ids: &Vec<NodeID>, id: NodeID) -> (r: bool)
    ensures
        r == ids@.contains(id),
{
    let mut i: usize = 0;
    while i < ids.len()
        invariant
            i <= ids@.len(),
            forall|j: int| 0 <= j < i ==> ids@[j] != id,
        decreases ids.len() - i,
    {
        if ids[i] == id {
            return true;
        }
        i = i + 1;
    }
    false
}

} // verus!
