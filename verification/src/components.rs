//! The components of paths, and the order of paths by them.
use vstd::prelude::*;
use vstd::string::*;

use crate::compose;
use crate::compose::join;
use crate::paths;
use crate::scan;
use crate::scan::{before, split_at_each};
use crate::text;
use crate::text::same;

verus! {

broadcast use crate::text::views_push;

// ---------------------------------------------------------------------------
// Components
// ---------------------------------------------------------------------------

/// The parts before a position that count as components.
pub open spec fn counting(parts: Seq<Seq<char>>, end: int) -> Seq<Seq<char>>
    decreases end,
{
    if end <= 0 {
        Seq::empty()
    } else if paths::counts(parts, end - 1) {
        counting(parts, end - 1).push(parts[end - 1])
    } else {
        counting(parts, end - 1)
    }
}

/// The components of a path: the root where it is absolute, and the names between
/// the slashes.
pub open spec fn components(path: Seq<char>) -> Seq<Seq<char>> {
    let parts = scan::split(path, '/');
    if text::begins_with(path, "/"@) {
        seq!["/"@] + counting(parts, parts.len() as int)
    } else {
        counting(parts, parts.len() as int)
    }
}

/// The components of a path.
pub fn components_of(path: &str) -> (r: Vec<String>)
    ensures
        text::views(r@) == components(path@),
{
    let parts = split_at_each(path, '/');
    let ghost all = text::views(parts@);
    let mut out: Vec<String> = Vec::new();
    assert(text::views(out@) =~= Seq::<Seq<char>>::empty());
    if text::starts_with(path, "/") {
        out.push("/".to_owned());
    }
    let ghost start = text::views(out@);
    let mut i: usize = 0;
    assert(start + counting(all, 0) =~= start);
    while i < parts.len()
        invariant
            i <= parts.len(),
            all == text::views(parts@),
            text::views(out@) == start + counting(all, i as int),
        decreases parts.len() - i,
    {
        let part = parts[i].as_str();
        assert(part@ == all[i as int]);
        if !part.is_empty() && (i == 0 || !same(part, ".")) {
            out.push(parts[i].clone());
            assert(text::views(out@) =~= start + counting(all, i + 1));
        }
        i = i + 1;
    }
    assert(all.len() == parts@.len());
    assert(Seq::<Seq<char>>::empty() + counting(all, all.len() as int) =~= counting(
        all,
        all.len() as int,
    ));
    assert(start =~= (if text::begins_with(path@, "/"@) {
        seq!["/"@]
    } else {
        Seq::<Seq<char>>::empty()
    }));
    out
}

/// One path begins with the components of another.
pub open spec fn lies_under(path: Seq<char>, dir: Seq<char>) -> bool {
    components(dir).len() <= components(path).len() && components(path).take(
        components(dir).len() as int,
    ) == components(dir)
}

/// The components of a path below a directory, joined by slashes.
pub open spec fn rest_below(path: Seq<char>, dir: Seq<char>) -> Option<Seq<char>> {
    if lies_under(path, dir) {
        Some(compose::joined(components(path).skip(components(dir).len() as int), "/"@))
    } else {
        None
    }
}

/// The components of a path below a directory, joined by slashes.
pub fn strip_dir(path: &str, dir: &str) -> (r: Option<String>)
    ensures
        text::opt_text(r) == rest_below(path@, dir@),
{
    let a = components_of(path);
    let b = components_of(dir);
    let ghost x = components(path@);
    let ghost y = components(dir@);
    assert(text::views(a@).len() == a@.len());
    assert(text::views(b@).len() == b@.len());
    if b.len() > a.len() {
        return None;
    }
    let mut i: usize = 0;
    while i < b.len()
        invariant
            i <= b.len() <= a.len(),
            x == text::views(a@),
            y == text::views(b@),
            x == components(path@),
            y == components(dir@),
            forall|k: int| 0 <= k < i ==> x[k] == y[k],
        decreases b.len() - i,
    {
        assert(x[i as int] == a@[i as int]@);
        assert(y[i as int] == b@[i as int]@);
        if !same(a[i].as_str(), b[i].as_str()) {
            assert(x.take(y.len() as int)[i as int] == x[i as int]);
            return None;
        }
        i = i + 1;
    }
    assert(x.take(y.len() as int) =~= y);
    let mut rest: Vec<String> = Vec::new();
    let mut k: usize = b.len();
    assert(text::views(rest@) =~= x.subrange(y.len() as int, k as int));
    while k < a.len()
        invariant
            y.len() <= k <= a.len(),
            x == text::views(a@),
            text::views(rest@) == x.subrange(y.len() as int, k as int),
        decreases a.len() - k,
    {
        assert(x[k as int] == a@[k as int]@);
        rest.push(a[k].clone());
        assert(text::views(rest@) =~= x.subrange(y.len() as int, k + 1));
        k = k + 1;
    }
    assert(x.subrange(y.len() as int, k as int) =~= x.skip(y.len() as int));
    Some(join(&rest, "/"))
}

// ---------------------------------------------------------------------------
// Order
// ---------------------------------------------------------------------------

/// The rank of a component: the root, the current directory, the directory above,
/// and names, in this order.
pub open spec fn rank(component: Seq<char>) -> int {
    if component == "/"@ {
        0
    } else if component == "."@ {
        1
    } else if component == ".."@ {
        2
    } else {
        3
    }
}

/// One component comes before another.
pub open spec fn component_before(a: Seq<char>, b: Seq<char>) -> bool {
    rank(a) < rank(b) || (rank(a) == rank(b) && scan::comes_before(a, b))
}

/// One list of components comes before another: at the first place where they
/// differ, or by being shorter.
pub open spec fn components_before(a: Seq<Seq<char>>, b: Seq<Seq<char>>, i: int) -> bool
    decreases a.len() - i,
{
    if i >= b.len() {
        false
    } else if i >= a.len() {
        true
    } else if a[i] != b[i] {
        component_before(a[i], b[i])
    } else {
        components_before(a, b, i + 1)
    }
}

/// One path comes before another.
pub open spec fn path_before(a: Seq<char>, b: Seq<char>) -> bool {
    components_before(components(a), components(b), 0)
}

fn rank_of(component: &str) -> (r: u8)
    ensures
        r == rank(component@),
{
    if same(component, "/") {
        0
    } else if same(component, ".") {
        1
    } else if same(component, "..") {
        2
    } else {
        3
    }
}

/// Tells whether one path comes before another.
pub fn comes_first(a: &str, b: &str) -> (r: bool)
    ensures
        r == path_before(a@, b@),
{
    let p = components_of(a);
    let q = components_of(b);
    let ghost x = text::views(p@);
    let ghost y = text::views(q@);
    let mut i: usize = 0;
    while i < p.len() && i < q.len()
        invariant
            i <= p.len(),
            i <= q.len(),
            x == text::views(p@),
            y == text::views(q@),
            x == components(a@),
            y == components(b@),
            components_before(x, y, 0) == components_before(x, y, i as int),
        decreases p.len() - i,
    {
        assert(x[i as int] == p@[i as int]@);
        assert(y[i as int] == q@[i as int]@);
        if !same(p[i].as_str(), q[i].as_str()) {
            let m = rank_of(p[i].as_str());
            let n = rank_of(q[i].as_str());
            return m < n || (m == n && before(p[i].as_str(), q[i].as_str()));
        }
        i = i + 1;
    }
    assert(x.len() == p@.len() && y.len() == q@.len());
    i < q.len()
}

/// Two paths have the same components.
pub open spec fn same_path(a: Seq<char>, b: Seq<char>) -> bool {
    components(a) == components(b)
}

/// Tells whether two paths have the same components.
pub fn are_same_path(a: &str, b: &str) -> (r: bool)
    ensures
        r == same_path(a@, b@),
{
    let p = components_of(a);
    let q = components_of(b);
    let ghost x = text::views(p@);
    let ghost y = text::views(q@);
    assert(x.len() == p@.len() && y.len() == q@.len());
    if p.len() != q.len() {
        return false;
    }
    let mut i: usize = 0;
    while i < p.len()
        invariant
            i <= p.len() == q.len(),
            x == text::views(p@),
            y == text::views(q@),
            x == components(a@),
            y == components(b@),
            forall|k: int| 0 <= k < i ==> x[k] == y[k],
        decreases p.len() - i,
    {
        assert(x[i as int] == p@[i as int]@);
        assert(y[i as int] == q@[i as int]@);
        if !same(p[i].as_str(), q[i].as_str()) {
            return false;
        }
        i = i + 1;
    }
    assert(x =~= y);
    true
}

// ---------------------------------------------------------------------------
// Laws
// ---------------------------------------------------------------------------

/// No path comes before itself.
pub proof fn law_no_path_before_itself(a: Seq<char>)
    ensures
        !path_before(a, a),
{
    lemma_no_components_before_themselves(components(a), 0);
}

proof fn lemma_no_components_before_themselves(a: Seq<Seq<char>>, i: int)
    ensures
        !components_before(a, a, i),
    decreases a.len() - i,
{
    if i < a.len() {
        lemma_no_components_before_themselves(a, i + 1);
    }
}

/// Of two paths with different components one comes before the other.
pub proof fn law_paths_are_ordered(a: Seq<char>, b: Seq<char>)
    requires
        !same_path(a, b),
    ensures
        path_before(a, b) || path_before(b, a),
{
    lemma_components_ordered(components(a), components(b), 0);
}

proof fn lemma_components_ordered(a: Seq<Seq<char>>, b: Seq<Seq<char>>, i: int)
    requires
        a != b,
        0 <= i,
        i <= a.len(),
        i <= b.len(),
        forall|k: int| 0 <= k < i ==> a[k] == b[k],
    ensures
        components_before(a, b, i) || components_before(b, a, i),
    decreases a.len() - i,
{
    if i < a.len() && i < b.len() {
        if a[i] != b[i] {
            scan::lemma_order_total(a[i], b[i]);
        } else {
            lemma_components_ordered(a, b, i + 1);
        }
    } else if a.len() == b.len() {
        assert(a =~= b);
    }
}

/// Nothing is left of a path below itself.
pub proof fn law_directory_lies_under_itself(dir: Seq<char>)
    ensures
        rest_below(dir, dir) == Some(Seq::<char>::empty()),
{
    let c = components(dir);
    assert(c.take(c.len() as int) =~= c);
    assert(c.skip(c.len() as int) =~= Seq::<Seq<char>>::empty());
    assert(compose::joined(Seq::<Seq<char>>::empty(), "/"@) =~= Seq::<char>::empty());
}

} // verus!
