//! Where the state files of workspaces lie, and when they are looked at.
use vstd::prelude::*;
use vstd::string::*;

use crate::components;
use crate::compose;
use crate::config::WorkspaceMonitorView;
use crate::json::Node;
use crate::paths;
use crate::scan;
use crate::scan_laws;
use crate::table;
use crate::table_laws;
use crate::text;
use crate::workspace_diff::MatchView;
use crate::workspace_diff;
use crate::workspace_watch::{FileSignature, FoundView, TopologyView, WatchedView};
use crate::workspace_watch;

verus! {

// ---------------------------------------------------------------------------
// Paths
// ---------------------------------------------------------------------------

proof fn lemma_counting_front(a: Seq<Seq<char>>, b: Seq<Seq<char>>, end: int)
    requires
        end <= a.len(),
        end <= b.len(),
        forall|i: int| 0 <= i < end ==> a[i] == b[i],
    ensures
        components::counting(a, end) == components::counting(b, end),
    decreases end,
{
    if end > 0 {
        lemma_counting_front(a, b, end - 1);
    }
}

/// A part of a path that is a component of it.
pub open spec fn is_component(name: Seq<char>) -> bool {
    name.len() > 0 && !name.contains('/') && name != "."@
}

/// The components of a path are those of its directory and its name.
pub proof fn law_components_of_a_path(dir: Seq<char>, name: Seq<char>)
    requires
        dir.len() > 0,
        is_component(name),
    ensures
        components::components(dir + "/"@ + name) == components::components(dir).push(name),
        components::components("/"@ + name) == seq!["/"@, name],
        components::components(name) == seq![name],
{
    reveal_strlit("/");
    assert("/"@ =~= seq!['/']);
    scan_laws::law_text_without_separator_is_one_part(name, '/');
    scan_laws::law_text_without_separator_is_one_part(Seq::empty(), '/');
    scan_laws::law_separator_parts(dir, '/', name);
    scan_laws::law_separator_parts(Seq::empty(), '/', name);
    let path = dir + "/"@ + name;
    let ups = scan::split(dir, '/');
    let parts = scan::split(path, '/');
    assert(parts == ups + seq![name]);
    let n = ups.len() as int;
    assert(parts.len() == n + 1);
    assert(parts[n] == name);
    scan_laws::law_separator_parts(Seq::empty(), '/', dir);
    assert(n > 0);
    lemma_counting_front(parts, ups, n);
    assert(components::counting(parts, n + 1) == components::counting(ups, n).push(name));
    assert(path[0] == dir[0]);
    assert(path.subrange(0, 1) =~= seq![path[0]]);
    assert(dir.subrange(0, 1) =~= seq![dir[0]]);
    assert(text::begins_with(path, "/"@) == text::begins_with(dir, "/"@));
    assert(seq!["/"@] + components::counting(parts, n + 1) =~= (seq!["/"@]
        + components::counting(ups, n)).push(name));
    reveal_with_fuel(components::counting, 3);
    let top = "/"@ + name;
    assert(Seq::<char>::empty() + seq!['/'] + name =~= top);
    let two = scan::split(top, '/');
    assert(two == seq![Seq::<char>::empty()] + seq![name]);
    assert(two[0].len() == 0 && two[1] == name && two.len() == 2);
    assert(top.subrange(0, 1) =~= seq!['/']);
    assert(text::begins_with(top, "/"@));
    assert(components::components(top) =~= seq!["/"@, name]);
    assert(name[0] != '/');
    assert(name.subrange(0, 1) =~= seq![name[0]]);
    if text::begins_with(name, "/"@) {
        assert(seq![name[0]][0] == seq!['/'][0]);
    }
    let own = scan::split(name, '/');
    assert(own[0] == name && own.len() == 1);
    assert(components::components(name) =~= seq![name]);
}

/// A file of a directory lies below it under its name, and one of a directory in it under both
/// names.
pub proof fn law_file_lies_below_its_directory(dir: Seq<char>, inner: Seq<char>, name: Seq<char>)
    requires
        dir.len() > 0,
        is_component(inner),
        is_component(name),
    ensures
        components::rest_below(dir + "/"@ + name, dir) == Some(name),
        components::rest_below(dir + "/"@ + inner + "/"@ + name, dir) == Some(
            inner + "/"@ + name,
        ),
{
    law_components_of_a_path(dir, name);
    law_components_of_a_path(dir, inner);
    law_components_of_a_path(dir + "/"@ + inner, name);
    let base = components::components(dir);
    let one = components::components(dir + "/"@ + name);
    let two = components::components(dir + "/"@ + inner + "/"@ + name);
    let n = base.len() as int;
    assert(one.take(n) =~= base);
    assert(one.skip(n) =~= seq![name]);
    assert(two.take(n) =~= base);
    assert(two.skip(n) =~= seq![inner, name]);
    assert(seq![inner, name].drop_last() =~= seq![inner]);
    reveal_with_fuel(compose::joined, 3);
}

/// A path lies below a directory exactly where its components begin with those of the
/// directory.
pub proof fn law_path_below_a_directory(path: Seq<char>, dir: Seq<char>, rest: Seq<Seq<char>>)
    ensures
        components::components(path) == components::components(dir) + rest
            ==> components::rest_below(path, dir) == Some(compose::joined(rest, "/"@)),
        components::rest_below(path, dir) is Some ==> components::components(path)
            == components::components(dir) + components::components(path).skip(
            components::components(dir).len() as int,
        ),
{
    let a = components::components(path);
    let b = components::components(dir);
    let n = b.len() as int;
    if a == b + rest {
        assert(a.take(n) =~= b);
        assert(a.skip(n) =~= rest);
    }
    if components::lies_under(path, dir) {
        assert(a =~= a.take(n) + a.skip(n));
    }
}

proof fn lemma_before(a: Seq<Seq<char>>, b: Seq<Seq<char>>, i: int, at: int)
    requires
        0 <= i <= at,
        at <= a.len(),
        at <= b.len(),
        forall|k: int| i <= k < at ==> a[k] == b[k],
    ensures
        components::components_before(a, b, i) == components::components_before(a, b, at),
    decreases at - i,
{
    if i < at {
        lemma_before(a, b, i + 1, at);
    }
}

/// Of two paths the one comes first that has the smaller component at the first place where
/// they differ; a path comes before those below it. Among the components the root comes first,
/// then the present directory, then the one above, and then the names in their order.
pub proof fn law_order_of_paths(a: Seq<char>, b: Seq<char>, at: int)
    requires
        0 <= at <= components::components(a).len(),
        at <= components::components(b).len(),
        forall|k: int|
            0 <= k < at ==> components::components(a)[k] == components::components(b)[k],
    ensures
        ({
            let x = components::components(a);
            let y = components::components(b);
            &&& at == y.len() ==> !components::path_before(a, b)
            &&& at == x.len() && at < y.len() ==> components::path_before(a, b)
            &&& at < x.len() && at < y.len() && x[at] != y[at] ==> components::path_before(a, b)
                == (if x[at] == "/"@ || y[at] == "/"@ {
                x[at] == "/"@
            } else if x[at] == "."@ || y[at] == "."@ {
                x[at] == "."@
            } else if x[at] == ".."@ || y[at] == ".."@ {
                x[at] == ".."@
            } else {
                scan::comes_before(x[at], y[at])
            })
        }),
{
    lemma_before(components::components(a), components::components(b), 0, at);
    reveal_strlit("/");
    reveal_strlit(".");
    reveal_strlit("..");
    assert("/"@[0] == '/' && "."@[0] == '.');
    assert("."@.len() == 1 && ".."@.len() == 2 && "/"@.len() == 1);
}

proof fn lemma_asymmetric(a: Seq<Seq<char>>, b: Seq<Seq<char>>, i: int)
    requires
        0 <= i,
        components::components_before(a, b, i),
    ensures
        !components::components_before(b, a, i),
    decreases a.len() - i,
{
    if i < a.len() && i < b.len() {
        if a[i] == b[i] {
            lemma_asymmetric(a, b, i + 1);
        } else if scan::comes_before(a[i], b[i]) && scan::comes_before(b[i], a[i]) {
            scan::lemma_order_transitive(a[i], b[i], a[i]);
            scan::lemma_order_irreflexive(a[i]);
        }
    }
}

// ---------------------------------------------------------------------------
// Workspaces
// ---------------------------------------------------------------------------

/// The state files below a directory of OMX or of OMC belong to that tool, and others to the
/// workspace.
pub proof fn law_tool_of_a_directory(dir: Seq<char>)
    requires
        !text::occurs_in(dir, "\\"@),
    ensures
        text::occurs_in(dir, ".omx"@) ==> workspace_watch::family_of(dir) == "omx"@,
        !text::occurs_in(dir, ".omx"@) && text::occurs_in(dir, ".omc"@)
            ==> workspace_watch::family_of(dir) == "omc"@,
        !text::occurs_in(dir, ".omx"@) && !text::occurs_in(dir, ".omc"@)
            ==> workspace_watch::family_of(dir) == "workspace"@,
{
    scan_laws::law_nothing_to_replace(dir, "\\"@, "/"@);
}

/// A workspace has the name of its directory, and its watched directories lie below it.
pub proof fn law_workspace_at_its_root(monitor: WorkspaceMonitorView, root: Seq<char>, i: int)
    requires
        0 <= i < monitor.watch_dirs.len(),
    ensures
        ({
            let w = workspace_watch::workspace_at(monitor, root);
            &&& w.monitor == monitor
            &&& w.workspace_root == root
            &&& match paths::file_name(root) {
                Some(name) => w.workspace_name == name,
                None => w.workspace_name == root,
            }
            &&& w.watch_dirs.len() == monitor.watch_dirs.len()
            &&& w.watch_dirs[i].path == paths::below(root, monitor.watch_dirs[i])
            &&& w.watch_dirs[i].state_family == workspace_watch::family_of(monitor.watch_dirs[i])
        }),
{
}

/// No path of a list comes before the one in front of it.
pub open spec fn ascending(list: Seq<Seq<char>>) -> bool {
    forall|i: int, j: int|
        #![trigger list[i], list[j]]
        0 <= i && j == i + 1 && j < list.len() ==> !components::path_before(list[j], list[i])
}

proof fn lemma_placed(list: Seq<Seq<char>>, path: Seq<char>)
    requires
        ascending(list),
    ensures
        ascending(workspace_watch::placed(list, path)),
        workspace_watch::placed(list, path).len() == list.len() + 1,
        workspace_watch::placed(list, path).to_multiset() == list.to_multiset().insert(path),
        workspace_watch::placed(list, path).last() == path || (list.len() > 0
            && workspace_watch::placed(list, path).last() == list.last()),
    decreases list.len(),
{
    broadcast use vstd::seq_lib::group_to_multiset_ensures;

    if list.len() > 0 && components::path_before(path, list.last()) {
        let front = list.drop_last();
        assert(ascending(front)) by {
            assert forall|i: int, j: int|
                #![trigger front[i], front[j]]
                0 <= i && j == i + 1 && j < front.len() implies !components::path_before(
                front[j],
                front[i],
            ) by {
                assert(!components::path_before(list[j], list[i]));
            }
        }
        lemma_placed(front, path);
        let p = workspace_watch::placed(front, path);
        let r = p.push(list.last());
        lemma_asymmetric(
            components::components(path),
            components::components(list.last()),
            0,
        );
        assert forall|i: int, j: int|
            #![trigger r[i], r[j]]
            0 <= i && j == i + 1 && j < r.len() implies !components::path_before(r[j], r[i]) by {
            if j < p.len() {
                assert(!components::path_before(p[j], p[i]));
            } else {
                assert(r[i] == p.last());
                if front.len() > 0 && p.last() == front.last() {
                    let k = list.len() - 2;
                    assert(list[k] == front.last());
                    assert(!components::path_before(list[k + 1], list[k]));
                }
            }
        }
        assert(list =~= front.push(list.last()));
    } else {
        let r = list.push(path);
        assert forall|i: int, j: int|
            #![trigger r[i], r[j]]
            0 <= i && j == i + 1 && j < r.len() implies !components::path_before(r[j], r[i]) by {
            if j < list.len() {
                assert(!components::path_before(list[j], list[i]));
            }
        }
    }
}

/// Putting paths in order keeps each of them and leaves none before the one in front of it.
pub proof fn law_paths_are_put_in_order(list: Seq<Seq<char>>)
    ensures
        ascending(workspace_watch::in_path_order(list)),
        workspace_watch::in_path_order(list).to_multiset() == list.to_multiset(),
    decreases list.len(),
{
    broadcast use vstd::seq_lib::group_to_multiset_ensures;

    if list.len() > 0 {
        law_paths_are_put_in_order(list.drop_last());
        lemma_placed(workspace_watch::in_path_order(list.drop_last()), list.last());
        assert(list =~= list.drop_last().push(list.last()));
    } else {
        assert(list =~= Seq::empty());
    }
}

proof fn lemma_without_repeats(list: Seq<Seq<char>>)
    requires
        ascending(list),
    ensures
        ({
            let r = workspace_watch::without_repeats(list);
            &&& list.len() > 0 ==> r.len() > 0 && components::same_path(r.last(), list.last())
            &&& forall|i: int, j: int|
                #![trigger r[i], r[j]]
                0 <= i && j == i + 1 && j < r.len() ==> components::path_before(r[i], r[j])
            &&& forall|i: int| 0 <= i < r.len() ==> list.contains(#[trigger] r[i])
        }),
    decreases list.len(),
{
    if list.len() > 0 {
        let before = list.drop_last();
        assert(ascending(before)) by {
            assert forall|i: int, j: int|
                #![trigger before[i], before[j]]
                0 <= i && j == i + 1 && j < before.len() implies !components::path_before(
                before[j],
                before[i],
            ) by {
                assert(!components::path_before(list[j], list[i]));
            }
        }
        lemma_without_repeats(before);
        let front = workspace_watch::without_repeats(before);
        let r = workspace_watch::without_repeats(list);
        let last = list.last();
        assert(list[list.len() - 1] == last);
        if before.len() > 0 {
            let k = list.len() - 2;
            assert(list[k] == before.last());
            assert(!components::path_before(list[k + 1], list[k]));
            assert(!components::path_before(last, front.last()));
            if !components::same_path(front.last(), last) {
                components::law_paths_are_ordered(front.last(), last);
            }
        }
        assert forall|i: int, j: int|
            #![trigger r[i], r[j]]
            0 <= i && j == i + 1 && j < r.len() implies components::path_before(r[i], r[j]) by {
            if j < front.len() {
                assert(components::path_before(front[i], front[j]));
            } else {
                assert(r[i] == front.last());
            }
        }
        assert forall|i: int| 0 <= i < r.len() implies list.contains(#[trigger] r[i]) by {
            if i < front.len() {
                assert(before.contains(front[i]));
                let k = choose|k: int| 0 <= k < before.len() && before[k] == front[i];
                assert(list[k] == r[i]);
            }
        }
    }
}

/// A list has a path with the components of a given one.
pub open spec fn has_path(list: Seq<Seq<char>>, path: Seq<char>) -> bool {
    exists|i: int| 0 <= i < list.len() && components::same_path(#[trigger] list[i], path)
}

proof fn lemma_no_path_is_lost(list: Seq<Seq<char>>, k: int)
    requires
        0 <= k < list.len(),
    ensures
        has_path(workspace_watch::without_repeats(list), list[k]),
    decreases list.len(),
{
    let before = list.drop_last();
    let front = workspace_watch::without_repeats(before);
    let r = workspace_watch::without_repeats(list);
    if k < before.len() {
        lemma_no_path_is_lost(before, k);
        let i = choose|i: int|
            0 <= i < front.len() && components::same_path(#[trigger] front[i], before[k]);
        assert(r[i] == front[i]);
    } else {
        assert(components::same_path(r[r.len() - 1], list[k]));
    }
}

/// The roots of a workspace are its own path and, where worktrees count, theirs: each once, in
/// the order of the paths, and no other.
pub proof fn law_roots_of_a_workspace(
    monitor: WorkspaceMonitorView,
    worktrees: Seq<Seq<char>>,
    path: Seq<char>,
)
    ensures
        ({
            let r = workspace_watch::roots_of(monitor, worktrees);
            let counts = |p: Seq<char>|
                p == monitor.path || (monitor.discover_worktrees && worktrees.contains(p));
            &&& r.contains(path) ==> counts(path)
            &&& counts(path) ==> has_path(r, path)
            &&& forall|i: int, j: int|
                #![trigger r[i], r[j]]
                0 <= i && j == i + 1 && j < r.len() ==> components::path_before(r[i], r[j])
        }),
{
    let all = if monitor.discover_worktrees {
        seq![monitor.path] + worktrees
    } else {
        seq![monitor.path]
    };
    let sorted = workspace_watch::in_path_order(all);
    law_paths_are_put_in_order(all);
    lemma_without_repeats(sorted);
    let r = workspace_watch::roots_of(monitor, worktrees);
    broadcast use vstd::seq_lib::group_to_multiset_ensures;

    assert(all[0] == monitor.path);
    assert forall|p: Seq<char>| all.contains(p) == #[trigger] sorted.contains(p) by {
        assert(all.contains(p) == (all.to_multiset().count(p) > 0));
        assert(sorted.contains(p) == (sorted.to_multiset().count(p) > 0));
    }
    let counts = path == monitor.path || (monitor.discover_worktrees && worktrees.contains(path));
    assert(all.contains(path) == counts) by {
        if monitor.discover_worktrees {
            if worktrees.contains(path) {
                let k = choose|k: int| 0 <= k < worktrees.len() && worktrees[k] == path;
                assert(all[k + 1] == path);
            }
            if all.contains(path) {
                let k = choose|k: int| 0 <= k < all.len() && all[k] == path;
                if k > 0 {
                    assert(worktrees[k - 1] == path);
                }
            }
        }
    }
    if r.contains(path) {
        let i = choose|i: int| 0 <= i < r.len() && r[i] == path;
        assert(sorted.contains(r[i]));
    }
    if counts {
        assert(sorted.contains(path));
        let k = choose|k: int| 0 <= k < sorted.len() && sorted[k] == path;
        lemma_no_path_is_lost(sorted, k);
    }
}

/// Every root of every monitor is a workspace of it, and so is the path of a monitor that is
/// not there.
pub proof fn law_workspaces_are_gathered(
    monitors: Seq<WorkspaceMonitorView>,
    found: Seq<FoundView>,
    w: TopologyView,
)
    ensures
        workspace_watch::gathered(monitors, found).contains(w) <==> exists|i: int|
            0 <= i < monitors.len() && #[trigger] belongs(monitors[i], found[i], w),
    decreases monitors.len(),
{
    if monitors.len() > 0 {
        let front = monitors.drop_last();
        let n = monitors.len() - 1;
        let monitor = monitors.last();
        law_workspaces_are_gathered(front, found, w);
        let before = workspace_watch::gathered(front, found);
        let roots = workspace_watch::roots_of(monitor, found[n].worktrees);
        let here = workspace_watch::workspaces_at(monitor, roots);
        let all = workspace_watch::gathered(monitors, found);
        assert(monitors[n] == monitor);
        let both = before + here;
        assert(both.contains(w) <==> before.contains(w) || here.contains(w)) by {
            if before.contains(w) {
                let i = choose|i: int| 0 <= i < before.len() && before[i] == w;
                assert(both[i] == w);
            }
            if here.contains(w) {
                let i = choose|i: int| 0 <= i < here.len() && here[i] == w;
                assert(both[before.len() + i] == w);
            }
        }
        assert(here.contains(w) <==> roots.contains(w.workspace_root) && w
            == workspace_watch::workspace_at(monitor, w.workspace_root)) by {
            if here.contains(w) {
                let i = choose|i: int| 0 <= i < here.len() && here[i] == w;
                assert(roots[i] == w.workspace_root);
            }
            if roots.contains(w.workspace_root) && w == workspace_watch::workspace_at(
                monitor,
                w.workspace_root,
            ) {
                let i = choose|i: int| 0 <= i < roots.len() && roots[i] == w.workspace_root;
                assert(here[i] == w);
            }
        }
        if !found[n].exists {
            let last = workspace_watch::workspace_at(monitor, monitor.path);
            assert(all == both.push(last));
            assert(all.contains(w) <==> both.contains(w) || w == last) by {
                if both.contains(w) {
                    let i = choose|i: int| 0 <= i < both.len() && both[i] == w;
                    assert(all[i] == w);
                }
                assert(all[both.len() as int] == last);
                if all.contains(w) && w != last {
                    let i = choose|i: int| 0 <= i < all.len() && all[i] == w;
                    assert(both[i] == w);
                }
            }
        }
        assert(all.contains(w) <==> before.contains(w) || belongs(monitors[n], found[n], w));
        if before.contains(w) {
            let i = choose|i: int|
                0 <= i < front.len() && #[trigger] belongs(front[i], found[i], w);
            assert(belongs(monitors[i], found[i], w));
        }
        if exists|i: int| 0 <= i < monitors.len() && #[trigger] belongs(monitors[i], found[i], w) {
            let i = choose|i: int|
                0 <= i < monitors.len() && #[trigger] belongs(monitors[i], found[i], w);
            if i < n {
                assert(belongs(front[i], found[i], w));
            }
        }
    }
}

/// A workspace is one of a monitor, as that is found.
pub open spec fn belongs(monitor: WorkspaceMonitorView, here: FoundView, w: TopologyView) -> bool {
    &&& w == workspace_watch::workspace_at(monitor, w.workspace_root)
    &&& workspace_watch::roots_of(monitor, here.worktrees).contains(w.workspace_root) || (
    !here.exists && w.workspace_root == monitor.path)
}

proof fn lemma_placed_workspace(list: Seq<TopologyView>, one: TopologyView)
    ensures
        workspace_watch::placed_workspace(list, one).to_multiset() == list.to_multiset().insert(
            one,
        ),
    decreases list.len(),
{
    broadcast use vstd::seq_lib::group_to_multiset_ensures;

    if list.len() > 0 && components::path_before(one.workspace_root, list.last().workspace_root) {
        lemma_placed_workspace(list.drop_last(), one);
        assert(list =~= list.drop_last().push(list.last()));
    }
}

proof fn lemma_in_root_order(list: Seq<TopologyView>)
    ensures
        workspace_watch::in_root_order(list).to_multiset() == list.to_multiset(),
    decreases list.len(),
{
    broadcast use vstd::seq_lib::group_to_multiset_ensures;

    if list.len() > 0 {
        lemma_in_root_order(list.drop_last());
        lemma_placed_workspace(workspace_watch::in_root_order(list.drop_last()), list.last());
        assert(list =~= list.drop_last().push(list.last()));
    } else {
        assert(list =~= Seq::empty());
    }
}

proof fn lemma_each_once(list: Seq<TopologyView>)
    ensures
        ({
            let r = workspace_watch::each_once(list);
            forall|i: int| 0 <= i < r.len() ==> list.contains(#[trigger] r[i])
        }),
    decreases list.len(),
{
    if list.len() > 0 {
        let before = list.drop_last();
        lemma_each_once(before);
        let front = workspace_watch::each_once(before);
        let r = workspace_watch::each_once(list);
        assert(list[list.len() - 1] == list.last());
        assert forall|i: int| 0 <= i < r.len() implies list.contains(#[trigger] r[i]) by {
            if i < front.len() {
                assert(before.contains(front[i]));
                let k = choose|k: int| 0 <= k < before.len() && before[k] == front[i];
                assert(list[k] == r[i]);
            }
        }
    }
}

/// A list has an entry that stands for the same workspace as a given one.
pub open spec fn has_workspace(list: Seq<TopologyView>, w: TopologyView) -> bool {
    exists|i: int| 0 <= i < list.len() && workspace_watch::same_workspace(w, #[trigger] list[i])
}

proof fn lemma_no_workspace_is_lost(list: Seq<TopologyView>, k: int)
    requires
        0 <= k < list.len(),
    ensures
        has_workspace(workspace_watch::each_once(list), list[k]),
    decreases list.len(),
{
    let before = list.drop_last();
    let front = workspace_watch::each_once(before);
    let r = workspace_watch::each_once(list);
    if k < before.len() {
        lemma_no_workspace_is_lost(before, k);
        let i = choose|i: int|
            0 <= i < front.len() && workspace_watch::same_workspace(before[k], #[trigger] front[i]);
        assert(r[i] == front[i]);
    } else {
        assert(workspace_watch::same_workspace(list[k], r[r.len() - 1]));
    }
}

/// The workspaces of a configuration are those that were gathered: none that was not, and each
/// that was or one that stands for the same.
pub proof fn law_workspaces_of_a_configuration(
    config: crate::config::AppSettingsView,
    found: Seq<FoundView>,
    w: TopologyView,
)
    ensures
        ({
            let t = workspace_watch::topology_of(config, found);
            let all = workspace_watch::gathered(config.monitors.workspace, found);
            &&& t.contains(w) ==> all.contains(w)
            &&& all.contains(w) ==> has_workspace(t, w)
        }),
{
    broadcast use vstd::seq_lib::group_to_multiset_ensures;

    let t = workspace_watch::topology_of(config, found);
    let all = workspace_watch::gathered(config.monitors.workspace, found);
    let sorted = workspace_watch::in_root_order(all);
    lemma_in_root_order(all);
    lemma_each_once(sorted);
    assert(all.contains(w) == (all.to_multiset().count(w) > 0));
    assert(sorted.contains(w) == (sorted.to_multiset().count(w) > 0));
    if t.contains(w) {
        let i = choose|i: int| 0 <= i < t.len() && t[i] == w;
        assert(sorted.contains(t[i]));
    }
    if all.contains(w) {
        let k = choose|k: int| 0 <= k < sorted.len() && sorted[k] == w;
        lemma_no_workspace_is_lost(sorted, k);
    }
}

// ---------------------------------------------------------------------------
// Files
// ---------------------------------------------------------------------------

/// A file does not lie in any watched directory of a workspace.
pub open spec fn lies_outside(w: TopologyView, path: Seq<char>) -> bool {
    forall|k: int|
        0 <= k < w.watch_dirs.len() ==> components::rest_below(
            path,
            (#[trigger] w.watch_dirs[k]).path,
        ) is None
}

proof fn lemma_in_dirs(w: TopologyView, path: Seq<char>, i: int, k: int)
    requires
        0 <= i <= k < w.watch_dirs.len(),
        forall|j: int|
            0 <= j < k ==> components::rest_below(path, (#[trigger] w.watch_dirs[j]).path) is None,
        components::rest_below(path, w.watch_dirs[k].path) is Some,
    ensures
        workspace_watch::match_in_dirs(w, i, path) == workspace_watch::match_in_dirs(w, k, path),
    decreases k - i,
{
    if i < k {
        lemma_in_dirs(w, path, i + 1, k);
    }
}

proof fn lemma_outside(w: TopologyView, path: Seq<char>, i: int)
    requires
        0 <= i,
        lies_outside(w, path),
    ensures
        workspace_watch::match_in_dirs(w, i, path) is None,
    decreases w.watch_dirs.len() - i,
{
    if i < w.watch_dirs.len() {
        lemma_outside(w, path, i + 1);
    }
}

proof fn lemma_match(topology: Seq<TopologyView>, path: Seq<char>, i: int, at: int)
    requires
        0 <= i <= at < topology.len(),
        forall|j: int| 0 <= j < at ==> lies_outside(#[trigger] topology[j], path),
    ensures
        workspace_watch::match_of(topology, i, path) == workspace_watch::match_of(
            topology,
            at,
            path,
        ),
    decreases at - i,
{
    if i < at {
        lemma_outside(topology[i], path, 0);
        lemma_match(topology, path, i + 1, at);
    }
}

/// A file belongs to the first workspace with a watched directory that it lies below, and there
/// to the first such directory; its name is what is left of its path.
pub proof fn law_workspace_of_a_file(
    topology: Seq<TopologyView>,
    path: Seq<char>,
    at: int,
    k: int,
    rest: Seq<char>,
)
    requires
        0 <= at < topology.len(),
        forall|j: int| 0 <= j < at ==> lies_outside(#[trigger] topology[j], path),
        0 <= k < topology[at].watch_dirs.len(),
        forall|j: int|
            0 <= j < k ==> components::rest_below(
                path,
                (#[trigger] topology[at].watch_dirs[j]).path,
            ) is None,
        components::rest_below(path, topology[at].watch_dirs[k].path) == Some(rest),
    ensures
        workspace_watch::match_of(topology, 0, path) == Some(
            MatchView {
                monitor: topology[at].monitor,
                workspace_root: topology[at].workspace_root,
                workspace_name: topology[at].workspace_name,
                state_family: topology[at].watch_dirs[k].state_family,
                watch_dir: topology[at].watch_dirs[k].path,
                state_file: rest,
            },
        ),
{
    lemma_match(topology, path, 0, at);
    lemma_in_dirs(topology[at], path, 0, k);
}

/// A file that lies in no watched directory belongs to no workspace.
pub proof fn law_file_of_no_workspace(topology: Seq<TopologyView>, path: Seq<char>, i: int)
    requires
        0 <= i,
        forall|j: int| 0 <= j < topology.len() ==> lies_outside(#[trigger] topology[j], path),
    ensures
        workspace_watch::match_of(topology, i, path) is None,
    decreases topology.len() - i,
{
    if i < topology.len() {
        lemma_outside(topology[i], path, 0);
        law_file_of_no_workspace(topology, path, i + 1);
    }
}

/// A changed file has to stay as it is for as long as its monitor says, one millisecond at
/// least, and one of no workspace for two seconds.
pub proof fn law_time_that_a_file_rests(topology: Seq<TopologyView>, path: Seq<char>)
    ensures
        match workspace_watch::match_of(topology, 0, path) {
            Some(m) => {
                &&& m.monitor.debounce_ms > 0 ==> workspace_watch::debounce_of(topology, path)
                    == m.monitor.debounce_ms
                &&& m.monitor.debounce_ms == 0 ==> workspace_watch::debounce_of(topology, path)
                    == 1
            },
            None => workspace_watch::debounce_of(topology, path) == 2000,
        },
{
}

/// The shortest interval is one that a monitor names, and no monitor names a shorter one.
pub proof fn law_shortest_interval(monitors: Seq<WorkspaceMonitorView>)
    ensures
        match workspace_watch::shortest(monitors) {
            Some(n) => {
                &&& exists|i: int|
                    0 <= i < monitors.len() && (#[trigger] monitors[i]).poll_interval_secs == Some(
                        n,
                    )
                &&& forall|i: int|
                    0 <= i < monitors.len() ==> match (#[trigger] monitors[i]).poll_interval_secs {
                        Some(other) => n <= other,
                        None => true,
                    }
            },
            None => forall|i: int|
                0 <= i < monitors.len() ==> (#[trigger] monitors[i]).poll_interval_secs is None,
        },
    decreases monitors.len(),
{
    if monitors.len() > 0 {
        let front = monitors.drop_last();
        let last = monitors.last();
        law_shortest_interval(front);
        let n = monitors.len() - 1;
        assert(monitors[n] == last);
        assert forall|i: int| 0 <= i < n implies front[i] == #[trigger] monitors[i] by {}
        match workspace_watch::shortest(front) {
            Some(a) => {
                let i = choose|i: int|
                    0 <= i < front.len() && (#[trigger] front[i]).poll_interval_secs == Some(a);
                assert(monitors[i].poll_interval_secs == Some(a));
                assert forall|i: int| 0 <= i < monitors.len() implies match (
                #[trigger] monitors[i]).poll_interval_secs {
                    Some(other) => workspace_watch::shortest(monitors)->0 <= other,
                    None => true,
                } by {
                    if i < n {
                        assert(front[i] == monitors[i]);
                    }
                }
            },
            None => {
                assert forall|i: int| 0 <= i < n implies (
                #[trigger] monitors[i]).poll_interval_secs is None by {
                    assert(front[i].poll_interval_secs is None);
                }
                if last.poll_interval_secs is Some {
                    assert(monitors[n].poll_interval_secs == workspace_watch::shortest(monitors));
                }
            },
        }
    }
}

// ---------------------------------------------------------------------------
// Changes
// ---------------------------------------------------------------------------

/// The moment at which a file that changes now is looked at.
pub open spec fn moment(topology: Seq<TopologyView>, path: Seq<char>, now_ms: u64) -> u64 {
    let wait = workspace_watch::debounce_of(topology, path);
    if now_ms + wait <= u64::MAX {
        (now_ms + wait) as u64
    } else {
        u64::MAX
    }
}

proof fn lemma_changed(
    pending: Seq<(Seq<char>, u64)>,
    known: Seq<(Seq<char>, FileSignature)>,
    found: Seq<(Seq<char>, FileSignature)>,
    topology: Seq<TopologyView>,
    now_ms: u64,
    path: Seq<char>,
)
    requires
        table::has_no_key_twice(found),
    ensures
        table::lookup(
            workspace_watch::with_changed(pending, known, found, topology, now_ms),
            path,
        ) == (match table::lookup(found, path) {
            Some(signature) => if table::lookup(known, path) != Some(signature) {
                Some(moment(topology, path, now_ms))
            } else {
                table::lookup(pending, path)
            },
            None => table::lookup(pending, path),
        }),
    decreases found.len(),
{
    if found.len() > 0 {
        let front = found.drop_last();
        assert(table::has_no_key_twice(front)) by {
            assert forall|a: int, b: int|
                #![trigger front[a], front[b]]
                0 <= a < b < front.len() implies front[a].0 != front[b].0 by {
                assert(found[a].0 != found[b].0);
            }
        }
        lemma_changed(pending, known, front, topology, now_ms, path);
        let so_far = workspace_watch::with_changed(pending, known, front, topology, now_ms);
        let last = found.last().0;
        table::law_put_then_lookup(
            so_far,
            last,
            workspace_watch::later(now_ms, workspace_watch::debounce_of(topology, last)),
            path,
        );
        if last == path && table::lookup(front, path) is Some {
            let i = table::law_found_value_is_an_entry(front, path);
            assert(found[i].0 != found[found.len() - 1].0);
        }
    }
}

proof fn lemma_gone(
    pending: Seq<(Seq<char>, u64)>,
    known: Seq<(Seq<char>, FileSignature)>,
    found: Seq<(Seq<char>, FileSignature)>,
    topology: Seq<TopologyView>,
    now_ms: u64,
    path: Seq<char>,
)
    ensures
        table::lookup(
            workspace_watch::with_gone(pending, known, found, topology, now_ms),
            path,
        ) == (if table::lookup(known, path) is Some && table::lookup(found, path) is None {
            Some(moment(topology, path, now_ms))
        } else {
            table::lookup(pending, path)
        }),
    decreases known.len(),
{
    if known.len() > 0 {
        let front = known.drop_last();
        lemma_gone(pending, front, found, topology, now_ms, path);
        let so_far = workspace_watch::with_gone(pending, front, found, topology, now_ms);
        let last = known.last().0;
        table::law_put_then_lookup(
            so_far,
            last,
            workspace_watch::later(now_ms, workspace_watch::debounce_of(topology, last)),
            path,
        );
    }
}

/// A file that is new, that changed or that is gone is to be looked at once it has rested;
/// every other one when it was to be looked at before. What is found is what is known from then
/// on, and what was seen of the files stays.
pub proof fn law_changes_are_noted(
    state: WatchedView,
    found: Seq<(Seq<char>, FileSignature)>,
    topology: Seq<TopologyView>,
    now_ms: u64,
    path: Seq<char>,
)
    requires
        table::has_no_key_twice(found),
    ensures
        ({
            let after = workspace_watch::reconciled(state, found, topology, now_ms);
            &&& after.signatures == found
            &&& after.snapshots == state.snapshots
            &&& table::lookup(after.pending, path) == (if table::lookup(found, path)
                != table::lookup(state.signatures, path) {
                Some(moment(topology, path, now_ms))
            } else {
                table::lookup(state.pending, path)
            })
        }),
{
    lemma_changed(state.pending, state.signatures, found, topology, now_ms, path);
    lemma_gone(
        workspace_watch::with_changed(state.pending, state.signatures, found, topology, now_ms),
        state.signatures,
        found,
        topology,
        now_ms,
        path,
    );
}

/// A file is due from its moment on, and waits before.
pub proof fn law_file_is_due(path: Seq<char>, at_ms: u64, now_ms: u64)
    ensures
        workspace_watch::is_due(now_ms)((path, at_ms)) <==> at_ms <= now_ms,
        workspace_watch::is_not_due(now_ms)((path, at_ms)) <==> at_ms > now_ms,
{
}

/// A look at a file tells how it differs from the last one; what is seen is remembered, and a
/// file that is gone is forgotten once that was told.
pub proof fn law_look_at_a_file(
    snapshots: Seq<(Seq<char>, Node)>,
    topology: Seq<TopologyView>,
    path: Seq<char>,
    current: Option<Node>,
    other: Seq<char>,
)
    requires
        other != path,
    ensures
        ({
            let (after, event) = workspace_watch::processed(snapshots, topology, path, current);
            &&& table::lookup(after, other) == table::lookup(snapshots, other)
            &&& match workspace_watch::match_of(topology, 0, path) {
                Some(m) => {
                    &&& event == workspace_diff::allowed_change(
                        m,
                        table::lookup(snapshots, path),
                        current,
                    )
                    &&& match current {
                        Some(node) => table::lookup(after, path) == Some(node),
                        None => table::lookup(after, path) == (if event is Some {
                            None
                        } else {
                            table::lookup(snapshots, path)
                        }),
                    }
                },
                None => event is None && table::lookup(after, path) is None,
            }
        }),
{
    table::law_without_then_lookup(snapshots, path, other);
    match current {
        Some(node) => {
            table::law_put_then_lookup(snapshots, path, node, other);
            table::law_put_then_lookup(snapshots, path, node, path);
        },
        None => {},
    }
}

/// The files that are due are those whose moment has come, in their order, and the others wait
/// on.
pub proof fn law_files_that_are_due(pending: Seq<(Seq<char>, u64)>, now_ms: u64)
    ensures
        workspace_watch::keys_of(table::kept(pending, workspace_watch::is_due(now_ms)))
            == pending.filter(|e: (Seq<char>, u64)| e.1 <= now_ms).map_values(
            |e: (Seq<char>, u64)| e.0,
        ),
        table::kept(pending, workspace_watch::is_not_due(now_ms)) == pending.filter(
            |e: (Seq<char>, u64)| e.1 > now_ms,
        ),
{
    let due = |e: (Seq<char>, u64)| e.1 <= now_ms;
    let waits = |e: (Seq<char>, u64)| e.1 > now_ms;
    assert(workspace_watch::is_due(now_ms) =~= due);
    assert(workspace_watch::is_not_due(now_ms) =~= waits);
    table_laws::law_kept_entries(pending, due);
    table_laws::law_kept_entries(pending, waits);
    assert(workspace_watch::keys_of(table::kept(pending, workspace_watch::is_due(now_ms)))
        =~= pending.filter(due).map_values(|e: (Seq<char>, u64)| e.0));
}

} // verus!
