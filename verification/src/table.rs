//! Tables from texts to values, kept as entries in the order of their keys.
use vstd::prelude::*;
use vstd::string::*;

use crate::scan;
use crate::scan::before;
use crate::text::same;

verus! {

// ---------------------------------------------------------------------------
// Tables
// ---------------------------------------------------------------------------

/// The value of a key: that of its last entry.
pub open spec fn lookup<V>(m: Seq<(Seq<char>, V)>, key: Seq<char>) -> Option<V>
    decreases m.len(),
{
    if m.len() == 0 {
        None
    } else if m.last().0 == key {
        Some(m.last().1)
    } else {
        lookup(m.drop_last(), key)
    }
}

/// The entries with `key` set to `value`: in its place, or where the order of
/// the keys puts it.
pub open spec fn put<V>(m: Seq<(Seq<char>, V)>, key: Seq<char>, value: V) -> Seq<
    (Seq<char>, V),
>
    decreases m.len(),
{
    if m.len() == 0 {
        seq![(key, value)]
    } else if m.last().0 == key {
        m.drop_last().push((key, value))
    } else if scan::comes_before(m.last().0, key) {
        m.push((key, value))
    } else {
        put(m.drop_last(), key, value).push(m.last())
    }
}

/// The keys of a table stand in strictly ascending order.
pub open spec fn in_order<V>(m: Seq<(Seq<char>, V)>) -> bool {
    forall|i: int, j: int|
        #![trigger m[i], m[j]]
        0 <= i < j < m.len() ==> scan::comes_before(m[i].0, m[j].0)
}

/// After a key is set, that key has the new value and every other key the value
/// it had.
pub proof fn law_put_then_lookup<V>(
    m: Seq<(Seq<char>, V)>,
    key: Seq<char>,
    value: V,
    other: Seq<char>,
)
    ensures
        lookup(put(m, key, value), key) == Some(value),
        other != key ==> lookup(put(m, key, value), other) == lookup(m, other),
    decreases m.len(),
{
    if m.len() == 0 {
        assert(put(m, key, value).drop_last() =~= m);
    } else if m.last().0 == key {
        assert(m.drop_last().push((key, value)).drop_last() =~= m.drop_last());
    } else if scan::comes_before(m.last().0, key) {
        assert(m.push((key, value)).drop_last() =~= m);
    } else {
        law_put_then_lookup(m.drop_last(), key, value, other);
        let p = put(m.drop_last(), key, value);
        assert(p.push(m.last()).drop_last() =~= p);
    }
}

/// Setting a key keeps the keys of a table in order.
pub proof fn law_put_keeps_order<V>(m: Seq<(Seq<char>, V)>, key: Seq<char>, value: V)
    requires
        in_order(m),
    ensures
        in_order(put(m, key, value)),
        forall|i: int|
            0 <= i < put(m, key, value).len() ==> {
                ||| (#[trigger] put(m, key, value)[i]).0 == key
                ||| exists|j: int| 0 <= j < m.len() && m[j].0 == put(m, key, value)[i].0
            },
    decreases m.len(),
{
    let p = put(m, key, value);
    if m.len() == 0 {
    } else if m.last().0 == key {
        assert forall|i: int| 0 <= i < p.len() implies {
            ||| (#[trigger] p[i]).0 == key
            ||| exists|j: int| 0 <= j < m.len() && m[j].0 == p[i].0
        } by {
            if i < m.len() - 1 {
                assert(m[i].0 == p[i].0);
            }
        }
        assert forall|i: int, j: int|
            #![trigger p[i], p[j]]
            0 <= i < j < p.len() implies scan::comes_before(p[i].0, p[j].0) by {
            assert(scan::comes_before(m[i].0, m[j].0));
        }
    } else if scan::comes_before(m.last().0, key) {
        assert forall|i: int| 0 <= i < p.len() implies {
            ||| (#[trigger] p[i]).0 == key
            ||| exists|j: int| 0 <= j < m.len() && m[j].0 == p[i].0
        } by {
            if i < m.len() {
                assert(m[i].0 == p[i].0);
            }
        }
        assert forall|i: int, j: int|
            #![trigger p[i], p[j]]
            0 <= i < j < p.len() implies scan::comes_before(p[i].0, p[j].0) by {
            if j == m.len() {
                if i < m.len() - 1 {
                    assert(scan::comes_before(m[i].0, m[m.len() - 1].0));
                    scan::lemma_order_transitive(m[i].0, m.last().0, key);
                }
            } else {
                assert(scan::comes_before(m[i].0, m[j].0));
            }
        }
    } else {
        let front = m.drop_last();
        let q = put(front, key, value);
        assert(in_order(front)) by {
            assert forall|i: int, j: int|
                #![trigger front[i], front[j]]
                0 <= i < j < front.len() implies scan::comes_before(front[i].0, front[j].0) by {
                assert(scan::comes_before(m[i].0, m[j].0));
            }
        }
        law_put_keeps_order(front, key, value);
        scan::lemma_order_total(m.last().0, key);
        assert forall|i: int| 0 <= i < p.len() implies {
            ||| (#[trigger] p[i]).0 == key
            ||| exists|j: int| 0 <= j < m.len() && m[j].0 == p[i].0
        } by {
            if i < q.len() {
                assert(p[i] == q[i]);
                if q[i].0 != key {
                    let j = choose|j: int| 0 <= j < front.len() && front[j].0 == q[i].0;
                    assert(m[j].0 == p[i].0);
                }
            } else {
                assert(m[m.len() - 1].0 == p[i].0);
            }
        }
        assert forall|i: int, j: int|
            #![trigger p[i], p[j]]
            0 <= i < j < p.len() implies scan::comes_before(p[i].0, p[j].0) by {
            if j < q.len() {
                assert(scan::comes_before(q[i].0, q[j].0));
            } else if q[i].0 != key {
                let k = choose|k: int| 0 <= k < front.len() && front[k].0 == q[i].0;
                assert(scan::comes_before(m[k].0, m[m.len() - 1].0));
            }
        }
    }
}

/// The table that results when entries are set one after the other.
pub open spec fn collected<V>(m: Seq<(Seq<char>, V)>) -> Seq<(Seq<char>, V)>
    decreases m.len(),
{
    if m.len() == 0 {
        m
    } else {
        put(collected(m.drop_last()), m.last().0, m.last().1)
    }
}

/// Entries that are in order already are collected into themselves.
pub proof fn law_collected_in_order<V>(m: Seq<(Seq<char>, V)>)
    requires
        in_order(m),
    ensures
        collected(m) == m,
    decreases m.len(),
{
    if m.len() > 0 {
        let front = m.drop_last();
        assert(in_order(front)) by {
            assert forall|i: int, j: int|
                #![trigger front[i], front[j]]
                0 <= i < j < front.len() implies scan::comes_before(front[i].0, front[j].0) by {
                assert(scan::comes_before(m[i].0, m[j].0));
            }
        }
        law_collected_in_order(front);
        if front.len() > 0 {
            assert(scan::comes_before(m[m.len() - 2].0, m[m.len() - 1].0));
            assert(front.last() == m[m.len() - 2]);
            scan::lemma_order_irreflexive(m.last().0);
        }
        assert(front.push((m.last().0, m.last().1)) =~= m);
    }
}

/// What is collected is in order.
pub proof fn law_collected_is_in_order<V>(m: Seq<(Seq<char>, V)>)
    ensures
        in_order(collected(m)),
    decreases m.len(),
{
    if m.len() > 0 {
        law_collected_is_in_order(m.drop_last());
        law_put_keeps_order(collected(m.drop_last()), m.last().0, m.last().1);
    }
}

// ---------------------------------------------------------------------------
// Tables as lists of entries
// ---------------------------------------------------------------------------

/// The keys and values of a list of entries.
pub open spec fn pairs<T: View>(entries: Seq<(String, T)>) -> Seq<(Seq<char>, T::V)> {
    Seq::new(entries.len(), |i: int| (entries[i].0@, entries[i].1@))
}

/// Adding an entry to a list adds its key and value.
pub broadcast proof fn pairs_push<T: View>(entries: Seq<(String, T)>, entry: (String, T))
    ensures
        #[trigger] pairs(entries.push(entry)) == pairs(entries).push((entry.0@, entry.1@)),
{
    assert(pairs(entries.push(entry)) =~= pairs(entries).push((entry.0@, entry.1@)));
}

/// The view of an optional reference.
pub open spec fn opt_view<T: View>(o: Option<&T>) -> Option<T::V> {
    match o {
        Some(t) => Some(t@),
        None => None,
    }
}

/// The value of a key.
pub fn find_entry<'a, T: View>(entries: &'a Vec<(String, T)>, key: &str) -> (r: Option<&'a T>)
    ensures
        opt_view(r) == lookup(pairs(entries@), key@),
{
    let ghost m = pairs(entries@);
    let mut i: usize = entries.len();
    assert(m.take(i as int) =~= m);
    while i > 0
        invariant
            i <= entries.len(),
            m == pairs(entries@),
            lookup(m, key@) == lookup(m.take(i as int), key@),
        decreases i,
    {
        let entry = &entries[i - 1];
        assert(m.take(i as int).drop_last() =~= m.take(i - 1));
        if same(entry.0.as_str(), key) {
            return Some(&entry.1);
        }
        i = i - 1;
    }
    None
}

/// Sets a key of a table.
pub fn set_entry<T: View>(entries: &mut Vec<(String, T)>, key: &str, value: T)
    ensures
        pairs(final(entries)@) == put(pairs(old(entries)@), key@, value@),
{
    let ghost m = pairs(entries@);
    let n = entries.len();
    let mut i: usize = n;
    let ghost mut tail: Seq<(Seq<char>, T::V)> = Seq::empty();
    assert(m.take(n as int) =~= m);
    assert(put(m, key@, value@) =~= put(m.take(i as int), key@, value@) + tail);
    while i > 0
        invariant
            i <= n == entries.len(),
            m == pairs(entries@),
            m == pairs(old(entries)@),
            tail == m.skip(i as int),
            put(m, key@, value@) == put(m.take(i as int), key@, value@) + tail,
        decreases i,
    {
        let ghost front = m.take(i as int);
        assert(front.drop_last() =~= m.take(i - 1));
        assert(front.last() == m[i - 1]);
        if same(entries[i - 1].0.as_str(), key) {
            let k = entries[i - 1].0.clone();
            let ghost node = value@;
            entries[i - 1] = (k, value);
            assert(pairs(entries@) =~= m.update(i - 1, (key@, node)));
            assert(m.update(i - 1, (key@, node)) =~= front.drop_last().push((key@, node)) + tail);
            return ;
        }
        if before(entries[i - 1].0.as_str(), key) {
            let ghost node = value@;
            entries.insert(i, (key.to_owned(), value));
            assert(pairs(entries@) =~= front.push((key@, node)) + tail);
            return ;
        }
        proof {
            assert(put(front.drop_last(), key@, value@).push(front.last()) + tail =~= put(
                front.drop_last(),
                key@,
                value@,
            ) + m.skip(i - 1)) by {
                assert(m.skip(i - 1) =~= seq![front.last()] + tail);
            }
            tail = m.skip(i - 1);
        }
        i = i - 1;
    }
    let ghost node = value@;
    entries.insert(0, (key.to_owned(), value));
    assert(pairs(entries@) =~= seq![(key@, node)] + m);
    assert(m.take(0) =~= Seq::<(Seq<char>, T::V)>::empty());
    assert(tail =~= m);
}

// ---------------------------------------------------------------------------
// Taking entries out
// ---------------------------------------------------------------------------

/// The entries of all keys but one.
pub open spec fn without<V>(m: Seq<(Seq<char>, V)>, key: Seq<char>) -> Seq<(Seq<char>, V)>
    decreases m.len(),
{
    if m.len() == 0 {
        m
    } else if m.last().0 == key {
        without(m.drop_last(), key)
    } else {
        without(m.drop_last(), key).push(m.last())
    }
}

/// After a key is taken out it has no value, and every other key the value it
/// had.
pub proof fn law_without_then_lookup<V>(m: Seq<(Seq<char>, V)>, key: Seq<char>, other: Seq<char>)
    ensures
        lookup(without(m, key), key) is None,
        other != key ==> lookup(without(m, key), other) == lookup(m, other),
    decreases m.len(),
{
    if m.len() > 0 {
        law_without_then_lookup(m.drop_last(), key, other);
        if m.last().0 != key {
            let w = without(m.drop_last(), key);
            assert(w.push(m.last()).drop_last() =~= w);
        }
    }
}

proof fn lemma_without_members<V>(m: Seq<(Seq<char>, V)>, key: Seq<char>, i: int)
    requires
        0 <= i < without(m, key).len(),
    ensures
        exists|j: int| 0 <= j < m.len() && m[j] == without(m, key)[i],
    decreases m.len(),
{
    let w = without(m, key);
    if m.last().0 == key {
        lemma_without_members(m.drop_last(), key, i);
        let j = choose|j: int| 0 <= j < m.drop_last().len() && m.drop_last()[j] == w[i];
        assert(m[j] == w[i]);
    } else if i < w.len() - 1 {
        lemma_without_members(m.drop_last(), key, i);
        let j = choose|j: int|
            0 <= j < m.drop_last().len() && m.drop_last()[j] == without(m.drop_last(), key)[i];
        assert(m[j] == w[i]);
    } else {
        assert(m[m.len() - 1] == w[i]);
    }
}

/// Taking out a key keeps the keys of a table in order.
pub proof fn law_without_keeps_order<V>(m: Seq<(Seq<char>, V)>, key: Seq<char>)
    requires
        in_order(m),
    ensures
        in_order(without(m, key)),
    decreases m.len(),
{
    if m.len() > 0 {
        let front = m.drop_last();
        assert(in_order(front)) by {
            assert forall|i: int, j: int|
                #![trigger front[i], front[j]]
                0 <= i < j < front.len() implies scan::comes_before(front[i].0, front[j].0) by {
                assert(scan::comes_before(m[i].0, m[j].0));
            }
        }
        law_without_keeps_order(front, key);
        if m.last().0 != key {
            let f = without(front, key);
            let w = without(m, key);
            assert forall|i: int, j: int|
                #![trigger w[i], w[j]]
                0 <= i < j < w.len() implies scan::comes_before(w[i].0, w[j].0) by {
                if j < f.len() {
                    assert(scan::comes_before(f[i].0, f[j].0));
                } else {
                    lemma_without_members(front, key, i);
                    let k = choose|k: int| 0 <= k < front.len() && front[k] == f[i];
                    assert(scan::comes_before(m[k].0, m[m.len() - 1].0));
                }
            }
        }
    }
}

/// What a removed value is.
pub open spec fn opt_owned<T: View>(o: Option<T>) -> Option<T::V> {
    match o {
        Some(t) => Some(t@),
        None => None,
    }
}

/// Takes a key out of a table whose keys stand in order, and hands out its
/// value.
pub fn remove_entry<T: View>(entries: &mut Vec<(String, T)>, key: &str) -> (r: Option<T>)
    requires
        in_order(pairs(old(entries)@)),
    ensures
        pairs(final(entries)@) == without(pairs(old(entries)@), key@),
        opt_owned(r) == lookup(pairs(old(entries)@), key@),
{
    let ghost m = pairs(entries@);
    let mut i: usize = entries.len();
    assert(m.take(i as int) =~= m);
    assert(m.skip(i as int) =~= Seq::empty());
    assert(without(m, key@) =~= without(m.take(i as int), key@) + m.skip(i as int));
    while i > 0
        invariant
            i <= entries.len(),
            entries@ == old(entries)@,
            m == pairs(entries@),
            in_order(m),
            lookup(m, key@) == lookup(m.take(i as int), key@),
            without(m, key@) == without(m.take(i as int), key@) + m.skip(i as int),
        decreases i,
    {
        let ghost front = m.take(i as int);
        assert(front.drop_last() =~= m.take(i - 1));
        assert(front.last() == m[i - 1]);
        if same(entries[i - 1].0.as_str(), key) {
            let (k, value) = entries.remove(i - 1);
            proof {
                let head = m.take(i - 1);
                assert forall|j: int| 0 <= j < head.len() implies (#[trigger] head[j]).0
                    != key@ by {
                    assert(scan::comes_before(m[j].0, m[i - 1].0));
                    scan::lemma_order_irreflexive(key@);
                }
                lemma_absent(head, key@);
                assert(pairs(entries@) =~= m.take(i - 1) + m.skip(i as int));
            }
            return Some(value);
        }
        proof {
            assert(without(front.drop_last(), key@).push(front.last()) + m.skip(i as int)
                =~= without(front.drop_last(), key@) + m.skip(i - 1)) by {
                assert(m.skip(i - 1) =~= seq![front.last()] + m.skip(i as int));
            }
        }
        i = i - 1;
    }
    assert(m.take(0) =~= Seq::<(Seq<char>, T::V)>::empty());
    assert(m.skip(0) =~= m);
    assert(without(m.take(0), key@) + m =~= m);
    None
}

proof fn lemma_absent<V>(m: Seq<(Seq<char>, V)>, key: Seq<char>)
    requires
        forall|i: int| 0 <= i < m.len() ==> (#[trigger] m[i]).0 != key,
    ensures
        without(m, key) == m,
    decreases m.len(),
{
    if m.len() > 0 {
        lemma_absent(m.drop_last(), key);
        assert(m.drop_last().push(m.last()) =~= m);
    }
}

/// Taking out a key that has no value changes nothing.
pub proof fn law_without_absent<V>(m: Seq<(Seq<char>, V)>, key: Seq<char>)
    ensures
        lookup(m, key) is None ==> without(m, key) == m,
    decreases m.len(),
{
    if m.len() > 0 {
        law_without_absent(m.drop_last(), key);
        assert(m.drop_last().push(m.last()) =~= m);
    }
}

/// Setting a key that was taken out before is setting it.
pub proof fn law_without_then_put<V>(m: Seq<(Seq<char>, V)>, key: Seq<char>, value: V)
    requires
        in_order(m),
    ensures
        put(without(m, key), key, value) == put(m, key, value),
    decreases m.len(),
{
    if m.len() > 0 {
        let front = m.drop_last();
        assert(in_order(front)) by {
            assert forall|i: int, j: int|
                #![trigger front[i], front[j]]
                0 <= i < j < front.len() implies scan::comes_before(front[i].0, front[j].0) by {
                assert(scan::comes_before(m[i].0, m[j].0));
            }
        }
        law_without_then_put(front, key, value);
        if m.last().0 == key {
            assert forall|j: int| 0 <= j < front.len() implies (#[trigger] front[j]).0 != key by {
                assert(scan::comes_before(m[j].0, m[m.len() - 1].0));
                scan::lemma_order_irreflexive(key);
            }
            lemma_absent(front, key);
            if front.len() > 0 {
                assert(scan::comes_before(m[m.len() - 2].0, m[m.len() - 1].0));
                assert(front.last() == m[m.len() - 2]);
            }
            assert(put(front, key, value) =~= front.push((key, value)));
        } else {
            let w = without(front, key);
            assert(w.push(m.last()).drop_last() =~= w);
            if scan::comes_before(m.last().0, key) {
                assert forall|j: int| 0 <= j < m.len() implies (#[trigger] m[j]).0 != key by {
                    scan::lemma_order_irreflexive(key);
                    if j < m.len() - 1 {
                        assert(scan::comes_before(m[j].0, m[m.len() - 1].0));
                        scan::lemma_order_transitive(m[j].0, m.last().0, key);
                    }
                }
                lemma_absent(m, key);
            }
        }
    }
}

/// The entries of a table with those of another set, one after the other.
pub open spec fn extended<V>(m: Seq<(Seq<char>, V)>, more: Seq<(Seq<char>, V)>) -> Seq<
    (Seq<char>, V),
>
    decreases more.len(),
{
    if more.len() == 0 {
        m
    } else {
        put(extended(m, more.drop_last()), more.last().0, more.last().1)
    }
}

// ---------------------------------------------------------------------------
// Keeping some entries
// ---------------------------------------------------------------------------

/// The entries of which something holds.
pub open spec fn kept<V>(m: Seq<(Seq<char>, V)>, keep: spec_fn((Seq<char>, V)) -> bool) -> Seq<
    (Seq<char>, V),
>
    decreases m.len(),
{
    if m.len() == 0 {
        m
    } else if keep(m.last()) {
        kept(m.drop_last(), keep).push(m.last())
    } else {
        kept(m.drop_last(), keep)
    }
}

proof fn lemma_kept_members<V>(
    m: Seq<(Seq<char>, V)>,
    keep: spec_fn((Seq<char>, V)) -> bool,
    i: int,
)
    requires
        0 <= i < kept(m, keep).len(),
    ensures
        exists|j: int| 0 <= j < m.len() && m[j] == kept(m, keep)[i],
    decreases m.len(),
{
    let w = kept(m, keep);
    let f = kept(m.drop_last(), keep);
    if keep(m.last()) && i == w.len() - 1 {
        assert(m[m.len() - 1] == w[i]);
    } else {
        lemma_kept_members(m.drop_last(), keep, i);
        let j = choose|j: int| 0 <= j < m.drop_last().len() && m.drop_last()[j] == f[i];
        assert(m[j] == w[i]);
    }
}

/// Keeping some entries keeps the keys of a table in order.
pub proof fn law_kept_keeps_order<V>(
    m: Seq<(Seq<char>, V)>,
    keep: spec_fn((Seq<char>, V)) -> bool,
)
    requires
        in_order(m),
    ensures
        in_order(kept(m, keep)),
    decreases m.len(),
{
    if m.len() > 0 {
        let front = m.drop_last();
        assert(in_order(front)) by {
            assert forall|i: int, j: int|
                #![trigger front[i], front[j]]
                0 <= i < j < front.len() implies scan::comes_before(front[i].0, front[j].0) by {
                assert(scan::comes_before(m[i].0, m[j].0));
            }
        }
        law_kept_keeps_order(front, keep);
        let f = kept(front, keep);
        let w = kept(m, keep);
        assert forall|i: int, j: int|
            #![trigger w[i], w[j]]
            0 <= i < j < w.len() implies scan::comes_before(w[i].0, w[j].0) by {
            if j < f.len() {
                assert(scan::comes_before(f[i].0, f[j].0));
            } else {
                lemma_kept_members(front, keep, i);
                let k = choose|k: int| 0 <= k < front.len() && front[k] == f[i];
                assert(scan::comes_before(m[k].0, m[m.len() - 1].0));
            }
        }
    }
}

/// A key that is kept has the value it had.
pub proof fn law_kept_then_lookup<V>(
    m: Seq<(Seq<char>, V)>,
    keep: spec_fn((Seq<char>, V)) -> bool,
    key: Seq<char>,
)
    requires
        in_order(m),
    ensures
        lookup(kept(m, keep), key) == (match lookup(m, key) {
            Some(value) => if keep((key, value)) {
                Some(value)
            } else {
                None
            },
            None => None,
        }),
    decreases m.len(),
{
    if m.len() > 0 {
        let front = m.drop_last();
        assert(in_order(front)) by {
            assert forall|i: int, j: int|
                #![trigger front[i], front[j]]
                0 <= i < j < front.len() implies scan::comes_before(front[i].0, front[j].0) by {
                assert(scan::comes_before(m[i].0, m[j].0));
            }
        }
        law_kept_then_lookup(front, keep, key);
        let f = kept(front, keep);
        assert(f.push(m.last()).drop_last() =~= f);
        if m.last().0 == key && !keep(m.last()) {
            lemma_last_key_is_new(m);
        }
    }
}

proof fn lemma_last_key_is_new<V>(m: Seq<(Seq<char>, V)>)
    requires
        in_order(m),
        m.len() > 0,
    ensures
        lookup(m.drop_last(), m.last().0) is None,
{
    let front = m.drop_last();
    let key = m.last().0;
    assert forall|i: int| 0 <= i < front.len() implies (#[trigger] front[i]).0 != key by {
        assert(scan::comes_before(m[i].0, m[m.len() - 1].0));
        scan::lemma_order_irreflexive(key);
    }
    lemma_no_such_key(front, key);
}

proof fn lemma_no_such_key<V>(m: Seq<(Seq<char>, V)>, key: Seq<char>)
    requires
        forall|i: int| 0 <= i < m.len() ==> (#[trigger] m[i]).0 != key,
    ensures
        lookup(m, key) is None,
    decreases m.len(),
{
    if m.len() > 0 {
        assert(m[m.len() - 1].0 != key);
        let front = m.drop_last();
        assert forall|i: int| 0 <= i < front.len() implies (#[trigger] front[i]).0 != key by {
            assert(m[i].0 != key);
        }
        lemma_no_such_key(front, key);
    }
}

/// Keeps the entries that are marked.
pub(crate) fn keep_marked<T: View>(
    entries: &mut Vec<(String, T)>,
    marks: &Vec<bool>,
    Ghost(keep): Ghost<spec_fn((Seq<char>, T::V)) -> bool>,
)
    requires
        marks@.len() == old(entries)@.len(),
        forall|i: int|
            0 <= i < marks@.len() ==> #[trigger] marks@[i] == keep(pairs(old(entries)@)[i]),
    ensures
        pairs(final(entries)@) == kept(pairs(old(entries)@), keep),
{
    let ghost m = pairs(entries@);
    let mut j: usize = 0;
    let mut i: usize = 0;
    assert(kept(m.take(0), keep) + m.skip(0) =~= m);
    while j < marks.len()
        invariant
            i <= j <= marks@.len() == m.len(),
            forall|k: int| 0 <= k < marks@.len() ==> #[trigger] marks@[k] == keep(m[k]),
            i == kept(m.take(j as int), keep).len(),
            pairs(entries@) == kept(m.take(j as int), keep) + m.skip(j as int),
        decreases marks.len() - j,
    {
        let ghost done = kept(m.take(j as int), keep);
        assert(m.take(j + 1).drop_last() =~= m.take(j as int));
        assert(m.take(j + 1).last() == m[j as int]);
        assert(m.skip(j as int) =~= seq![m[j as int]] + m.skip(j + 1));
        assert(pairs(entries@).len() == entries@.len());
        if marks[j] {
            assert(done + m.skip(j as int) =~= done.push(m[j as int]) + m.skip(j + 1));
            i = i + 1;
        } else {
            let ghost before_removal = entries@;
            entries.remove(i);
            assert(pairs(entries@) =~= done + m.skip(j + 1)) by {
                assert forall|k: int| 0 <= k < entries@.len() implies #[trigger] pairs(
                    entries@,
                )[k] == (done + m.skip(j + 1))[k] by {
                    if k < i {
                        assert(pairs(before_removal)[k] == done[k]);
                    } else {
                        assert(pairs(before_removal)[k + 1] == m.skip(j as int)[k + 1 - i]);
                    }
                }
            }
        }
        j = j + 1;
    }
    assert(m.take(j as int) =~= m);
    assert(m.skip(j as int) =~= Seq::empty());
    assert(kept(m, keep) + Seq::empty() =~= kept(m, keep));
}

/// No key stands in a table twice.
pub open spec fn has_no_key_twice<V>(m: Seq<(Seq<char>, V)>) -> bool {
    forall|i: int, j: int|
        #![trigger m[i], m[j]]
        0 <= i < j < m.len() ==> m[i].0 != m[j].0
}

proof fn lemma_put_adds_one<V>(m: Seq<(Seq<char>, V)>, key: Seq<char>, value: V)
    requires
        lookup(m, key) is None,
    ensures
        put(m, key, value).len() == m.len() + 1,
    decreases m.len(),
{
    if m.len() > 0 && !scan::comes_before(m.last().0, key) {
        lemma_put_adds_one(m.drop_last(), key, value);
    }
}

/// A value that is found under a key is that of an entry.
pub proof fn law_found_value_is_an_entry<V>(m: Seq<(Seq<char>, V)>, key: Seq<char>) -> (i: int)
    requires
        lookup(m, key) is Some,
    ensures
        0 <= i < m.len(),
        m[i] == (key, lookup(m, key)->Some_0),
    decreases m.len(),
{
    if m.last().0 == key {
        m.len() - 1
    } else {
        law_found_value_is_an_entry(m.drop_last(), key)
    }
}

/// Collecting entries changes the value of no key, and loses no entry where no key
/// stands twice.
pub proof fn law_collected_keeps_contents<V>(m: Seq<(Seq<char>, V)>)
    ensures
        forall|key: Seq<char>| #[trigger] lookup(collected(m), key) == lookup(m, key),
        has_no_key_twice(m) ==> collected(m).len() == m.len(),
    decreases m.len(),
{
    if m.len() > 0 {
        let front = m.drop_last();
        let last = m.last();
        law_collected_keeps_contents(front);
        assert forall|key: Seq<char>| #[trigger] lookup(collected(m), key) == lookup(m, key) by {
            law_put_then_lookup(collected(front), last.0, last.1, key);
            assert(lookup(collected(front), key) == lookup(front, key));
        }
        if has_no_key_twice(m) {
            assert forall|i: int, j: int|
                #![trigger front[i], front[j]]
                0 <= i < j < front.len() implies front[i].0 != front[j].0 by {
                assert(m[i].0 != m[j].0);
            }
            assert forall|i: int| 0 <= i < front.len() implies (#[trigger] front[i]).0 != last.0 by {
                assert(m[i].0 != m[m.len() - 1].0);
            }
            lemma_no_such_key(front, last.0);
            assert(lookup(collected(front), last.0) == lookup(front, last.0));
            lemma_put_adds_one(collected(front), last.0, last.1);
        }
    }
}

/// Two tables in order that give every key the same value are the same.
pub proof fn law_same_contents_same_table<V>(a: Seq<(Seq<char>, V)>, b: Seq<(Seq<char>, V)>)
    requires
        in_order(a),
        in_order(b),
        forall|key: Seq<char>| #[trigger] lookup(a, key) == lookup(b, key),
    ensures
        a == b,
    decreases a.len(),
{
    if a.len() == 0 {
        if b.len() > 0 {
            assert(lookup(a, b.last().0) == lookup(b, b.last().0));
        }
        assert(a =~= b);
    } else {
        let x = a.last().0;
        assert(lookup(a, x) == lookup(b, x));
        let j = law_found_value_is_an_entry(b, x);
        let y = b.last().0;
        assert(lookup(a, y) == lookup(b, y));
        let i = law_found_value_is_an_entry(a, y);
        if x != y {
            assert(scan::comes_before(a[i].0, a[a.len() - 1].0));
            assert(scan::comes_before(b[j].0, b[b.len() - 1].0));
            scan::lemma_order_transitive(x, y, x);
            scan::lemma_order_irreflexive(x);
        }
        lemma_last_key_is_new(a);
        lemma_last_key_is_new(b);
        let c = a.drop_last();
        let d = b.drop_last();
        assert forall|key: Seq<char>| #[trigger] lookup(c, key) == lookup(d, key) by {
            assert(lookup(a, key) == lookup(b, key));
        }
        lemma_front_in_order(a);
        lemma_front_in_order(b);
        law_same_contents_same_table(c, d);
        assert(a =~= c.push(a.last()));
        assert(b =~= d.push(b.last()));
    }
}

proof fn lemma_front_in_order<V>(m: Seq<(Seq<char>, V)>)
    requires
        in_order(m),
        m.len() > 0,
    ensures
        in_order(m.drop_last()),
{
    let front = m.drop_last();
    assert forall|i: int, j: int|
        #![trigger front[i], front[j]]
        0 <= i < j < front.len() implies scan::comes_before(front[i].0, front[j].0) by {
        assert(scan::comes_before(m[i].0, m[j].0));
    }
}

/// Setting a key adds no entry but that of the key.
pub proof fn law_put_adds_only_its_entry<V>(
    m: Seq<(Seq<char>, V)>,
    key: Seq<char>,
    value: V,
    i: int,
)
    requires
        0 <= i < put(m, key, value).len(),
    ensures
        put(m, key, value)[i] == (key, value) || exists|j: int|
            0 <= j < m.len() && #[trigger] m[j] == put(m, key, value)[i],
    decreases m.len(),
{
    let p = put(m, key, value);
    if m.len() == 0 {
    } else if m.last().0 == key || scan::comes_before(m.last().0, key) {
        if i < p.len() - 1 {
            assert(m[i] == p[i]);
        }
    } else if i < p.len() - 1 {
        law_put_adds_only_its_entry(m.drop_last(), key, value, i);
        let q = put(m.drop_last(), key, value);
        assert(p[i] == q[i]);
        if q[i] != (key, value) {
            let j = choose|j: int|
                0 <= j < m.drop_last().len() && #[trigger] m.drop_last()[j] == q[i];
            assert(m[j] == p[i]);
        }
    } else {
        assert(m[m.len() - 1] == p[i]);
    }
}

/// Taking out a key leaves only entries that were there.
pub proof fn law_without_leaves_entries<V>(m: Seq<(Seq<char>, V)>, key: Seq<char>, i: int)
    requires
        0 <= i < without(m, key).len(),
    ensures
        exists|j: int| 0 <= j < m.len() && #[trigger] m[j] == without(m, key)[i],
{
    lemma_without_members(m, key, i);
}

} // verus!
