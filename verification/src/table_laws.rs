//! What tables find and keep.
use vstd::prelude::*;

use crate::table;

verus! {

/// The value of a key is that of the last entry with that key, and there is none where no entry
/// has it.
pub proof fn law_last_entry_counts<V>(m: Seq<(Seq<char>, V)>, key: Seq<char>, i: int)
    ensures
        0 <= i < m.len() && m[i].0 == key && (forall|j: int|
            i < j < m.len() ==> (#[trigger] m[j]).0 != key) ==> table::lookup(m, key) == Some(
            m[i].1,
        ),
        (forall|j: int| 0 <= j < m.len() ==> (#[trigger] m[j]).0 != key) ==> table::lookup(m, key)
            is None,
    decreases m.len(),
{
    if m.len() > 0 {
        let front = m.drop_last();
        let n = m.len() - 1;
        law_last_entry_counts(front, key, i);
        if 0 <= i < m.len() && m[i].0 == key && (forall|j: int|
            i < j < m.len() ==> (#[trigger] m[j]).0 != key) {
            if i < n {
                assert(m[n].0 != key);
                assert(front[i] == m[i]);
                assert forall|j: int| i < j < front.len() implies (#[trigger] front[j]).0 != key by {
                    assert(m[j].0 != key);
                }
            }
        }
        if forall|j: int| 0 <= j < m.len() ==> (#[trigger] m[j]).0 != key {
            assert(m[n].0 != key);
            assert forall|j: int| 0 <= j < front.len() implies (#[trigger] front[j]).0 != key by {
                assert(m[j].0 != key);
            }
        }
    }
}

/// The entries that are kept are those of which something holds, all of them and in their
/// order.
pub proof fn law_kept_entries<V>(
    m: Seq<(Seq<char>, V)>,
    keep: spec_fn((Seq<char>, V)) -> bool,
)
    ensures
        table::kept(m, keep) == m.filter(keep),
    decreases m.len(),
{
    reveal(Seq::filter);
    if m.len() > 0 {
        law_kept_entries(m.drop_last(), keep);
    } else {
        assert(table::kept(m, keep) =~= m.filter(keep));
    }
}

/// Taking out a key leaves the entries of all other keys, in their order.
pub proof fn law_entries_of_other_keys<V>(m: Seq<(Seq<char>, V)>, key: Seq<char>)
    ensures
        table::without(m, key) == m.filter(|e: (Seq<char>, V)| e.0 != key),
    decreases m.len(),
{
    reveal(Seq::filter);
    if m.len() > 0 {
        law_entries_of_other_keys(m.drop_last(), key);
    } else {
        assert(table::without(m, key) =~= m.filter(|e: (Seq<char>, V)| e.0 != key));
    }
}

/// A table to which the entries of another are added has their values for their keys, and its
/// own for the others.
pub proof fn law_added_entries_count<V>(
    m: Seq<(Seq<char>, V)>,
    more: Seq<(Seq<char>, V)>,
    key: Seq<char>,
)
    ensures
        table::lookup(more, key) is Some ==> table::lookup(table::extended(m, more), key)
            == table::lookup(more, key),
        table::lookup(more, key) is None ==> table::lookup(table::extended(m, more), key)
            == table::lookup(m, key),
    decreases more.len(),
{
    if more.len() > 0 {
        law_added_entries_count(m, more.drop_last(), key);
        table::law_put_then_lookup(
            table::extended(m, more.drop_last()),
            more.last().0,
            more.last().1,
            key,
        );
    }
}

} // verus!
