//! The workspaces that are watched: where their state files are, and when a
//! change of one is looked at.
use vstd::prelude::*;
use vstd::string::*;

use std::sync::Arc;

use crate::components;
use crate::components::{are_same_path, comes_first, strip_dir};
use crate::config::{AppConfig, AppSettingsView, WorkspaceMonitor, WorkspaceMonitorView};
use crate::events::{EventView, IncomingEvent};
use crate::json;
use crate::json::{Json, Node};
use crate::paths;
use crate::paths::{file_name_of, join_path};
use crate::scan;
use crate::scan::replace;
use crate::table;
use crate::table::{find_entry, keep_marked, remove_entry, set_entry};
use crate::text;
use crate::text::contains;
use crate::workspace_diff;
use crate::workspace_diff::{diff_workspace_state, MatchView, WorkspaceMatch};

verus! {

broadcast use {crate::json::group_trees, crate::text::views_push};

/// The source of the events of workspaces.
#[derive(Debug)]
pub struct WorkspaceSource {
    pub config: Arc<AppConfig>,
}

impl WorkspaceSource {
    /// The source of the events of the workspaces of a configuration.
    pub fn new(config: Arc<AppConfig>) -> (r: Self)
        ensures
            r.config == config,
    {
        WorkspaceSource { config }
    }
}

// ---------------------------------------------------------------------------
// Where state files are
// ---------------------------------------------------------------------------

/// The tool to which the state files of a directory belong.
pub open spec fn family_of(watch_dir: Seq<char>) -> Seq<char> {
    let dir = scan::replaced(watch_dir, "\\"@, "/"@);
    if text::occurs_in(dir, ".omx"@) {
        "omx"@
    } else if text::occurs_in(dir, ".omc"@) {
        "omc"@
    } else {
        "workspace"@
    }
}

/// The tool to which the state files of a directory belong.
pub fn infer_state_family(watch_dir: &str) -> (r: String)
    ensures
        r@ == family_of(watch_dir@),
{
    proof {
        reveal_strlit("\\");
    }
    let dir = replace(watch_dir, "\\", "/");
    if contains(dir.as_str(), ".omx") {
        "omx".to_owned()
    } else if contains(dir.as_str(), ".omc") {
        "omc".to_owned()
    } else {
        "workspace".to_owned()
    }
}

/// The name of a workspace: that of its directory.
pub open spec fn name_of(path: Seq<char>) -> Seq<char> {
    match paths::file_name(path) {
        Some(name) => name,
        None => path,
    }
}

/// The name of a workspace: that of its directory.
pub fn workspace_name(path: &str) -> (r: String)
    ensures
        r@ == name_of(path@),
{
    match file_name_of(path) {
        Some(name) => name,
        None => path.to_owned(),
    }
}

/// A directory with state files.
#[derive(Debug)]
pub struct WatchDir {
    pub path: String,
    pub state_family: String,
}

/// A directory with state files.
pub struct DirView {
    pub path: Seq<char>,
    pub state_family: Seq<char>,
}

impl View for WatchDir {
    type V = DirView;

    open spec fn view(&self) -> DirView {
        DirView { path: self.path@, state_family: self.state_family@ }
    }
}

/// A workspace that is watched, with its directories.
#[derive(Debug)]
pub struct MonitorTopology<'a> {
    pub monitor: &'a WorkspaceMonitor,
    pub workspace_root: String,
    pub workspace_name: String,
    pub watch_dirs: Vec<WatchDir>,
}

/// A workspace that is watched, with its directories.
pub struct TopologyView {
    pub monitor: WorkspaceMonitorView,
    pub workspace_root: Seq<char>,
    pub workspace_name: Seq<char>,
    pub watch_dirs: Seq<DirView>,
}

impl<'a> View for MonitorTopology<'a> {
    type V = TopologyView;

    open spec fn view(&self) -> TopologyView {
        TopologyView {
            monitor: self.monitor@,
            workspace_root: self.workspace_root@,
            workspace_name: self.workspace_name@,
            watch_dirs: text::all_views(self.watch_dirs@),
        }
    }
}

/// The directories of a workspace.
pub open spec fn dirs_of(monitor: WorkspaceMonitorView, root: Seq<char>) -> Seq<DirView> {
    Seq::new(
        monitor.watch_dirs.len(),
        |i: int|
            DirView {
                path: paths::below(root, monitor.watch_dirs[i]),
                state_family: family_of(monitor.watch_dirs[i]),
            },
    )
}

/// The workspace at a root.
pub open spec fn workspace_at(monitor: WorkspaceMonitorView, root: Seq<char>) -> TopologyView {
    TopologyView {
        monitor,
        workspace_root: root,
        workspace_name: name_of(root),
        watch_dirs: dirs_of(monitor, root),
    }
}

fn make_workspace<'a>(monitor: &'a WorkspaceMonitor, root: &str) -> (r: MonitorTopology<'a>)
    ensures
        r@ == workspace_at(monitor@, root@),
{
    let ghost all = dirs_of(monitor@, root@);
    let mut watch_dirs: Vec<WatchDir> = Vec::new();
    let mut i: usize = 0;
    while i < monitor.watch_dirs.len()
        invariant
            i <= monitor.watch_dirs.len(),
            all == dirs_of(monitor@, root@),
            text::all_views(watch_dirs@) == all.take(i as int),
        decreases monitor.watch_dirs.len() - i,
    {
        let ghost before = text::all_views(watch_dirs@);
        let dir = WatchDir {
            path: join_path(root, monitor.watch_dirs[i].as_str()),
            state_family: infer_state_family(monitor.watch_dirs[i].as_str()),
        };
        let ghost view = dir@;
        watch_dirs.push(dir);
        assert(text::all_views(watch_dirs@) =~= before.push(view));
        assert(view == all[i as int]);
        assert(text::all_views(watch_dirs@) =~= all.take(i + 1));
        i = i + 1;
    }
    assert(all.take(i as int) =~= all);
    MonitorTopology {
        monitor,
        workspace_root: root.to_owned(),
        workspace_name: workspace_name(root),
        watch_dirs,
    }
}

/// A list in order with one more path in its place, after those that are not
/// behind it.
pub open spec fn placed(list: Seq<Seq<char>>, path: Seq<char>) -> Seq<Seq<char>>
    decreases list.len(),
{
    if list.len() > 0 && components::path_before(path, list.last()) {
        placed(list.drop_last(), path).push(list.last())
    } else {
        list.push(path)
    }
}

/// Some paths in order.
pub open spec fn in_path_order(list: Seq<Seq<char>>) -> Seq<Seq<char>>
    decreases list.len(),
{
    if list.len() == 0 {
        Seq::empty()
    } else {
        placed(in_path_order(list.drop_last()), list.last())
    }
}

/// A list without the paths that are the same as the one before them.
pub open spec fn without_repeats(list: Seq<Seq<char>>) -> Seq<Seq<char>>
    decreases list.len(),
{
    if list.len() == 0 {
        Seq::empty()
    } else {
        let front = without_repeats(list.drop_last());
        if front.len() > 0 && components::same_path(front.last(), list.last()) {
            front
        } else {
            front.push(list.last())
        }
    }
}

/// The roots of a workspace: its own, and those of its worktrees where they count.
pub open spec fn roots_of(monitor: WorkspaceMonitorView, worktrees: Seq<Seq<char>>) -> Seq<
    Seq<char>,
> {
    without_repeats(
        in_path_order(
            if monitor.discover_worktrees {
                seq![monitor.path] + worktrees
            } else {
                seq![monitor.path]
            },
        ),
    )
}

fn place(list: &mut Vec<String>, path: String)
    ensures
        text::views(final(list)@) == placed(text::views(old(list)@), path@),
{
    let ghost all = text::views(list@);
    let mut i: usize = list.len();
    assert(all.take(i as int) =~= all);
    assert(all.skip(i as int) =~= Seq::empty());
    assert(placed(all, path@) + Seq::empty() =~= placed(all, path@));
    while i > 0 && comes_first(path.as_str(), list[i - 1].as_str())
        invariant
            i <= list.len(),
            list@ == old(list)@,
            all == text::views(list@),
            placed(all, path@) == placed(all.take(i as int), path@) + all.skip(i as int),
        decreases i,
    {
        let ghost front = all.take(i as int);
        assert(front.last() == list@[i - 1]@);
        assert(front.drop_last() =~= all.take(i - 1));
        assert(all.skip(i - 1) =~= seq![front.last()] + all.skip(i as int));
        assert(placed(front.drop_last(), path@).push(front.last()) + all.skip(i as int) =~= placed(
            all.take(i - 1),
            path@,
        ) + all.skip(i - 1));
        i = i - 1;
    }
    let ghost front = all.take(i as int);
    if i > 0 {
        assert(front.last() == list@[i - 1]@);
    }
    let ghost view = path@;
    list.insert(i, path);
    assert(text::views(list@) =~= front.push(view) + all.skip(i as int));
}

fn put_in_path_order(list: &Vec<String>) -> (r: Vec<String>)
    ensures
        text::views(r@) == in_path_order(text::views(list@)),
{
    let ghost all = text::views(list@);
    let mut out: Vec<String> = Vec::new();
    assert(text::views(out@) =~= Seq::<Seq<char>>::empty());
    let mut i: usize = 0;
    while i < list.len()
        invariant
            i <= list.len(),
            all == text::views(list@),
            text::views(out@) == in_path_order(all.take(i as int)),
        decreases list.len() - i,
    {
        assert(all.take(i + 1).drop_last() =~= all.take(i as int));
        assert(all.take(i + 1).last() == list@[i as int]@);
        place(&mut out, list[i].clone());
        i = i + 1;
    }
    assert(all.take(i as int) =~= all);
    out
}

fn drop_repeats(list: &Vec<String>) -> (r: Vec<String>)
    ensures
        text::views(r@) == without_repeats(text::views(list@)),
{
    let ghost all = text::views(list@);
    let mut out: Vec<String> = Vec::new();
    assert(text::views(out@) =~= Seq::<Seq<char>>::empty());
    let mut i: usize = 0;
    while i < list.len()
        invariant
            i <= list.len(),
            all == text::views(list@),
            text::views(out@) == without_repeats(all.take(i as int)),
        decreases list.len() - i,
    {
        assert(all.take(i + 1).drop_last() =~= all.take(i as int));
        assert(all.take(i + 1).last() == list@[i as int]@);
        let n = out.len();
        assert(text::views(out@).len() == n);
        if n > 0 {
            assert(text::views(out@).last() == out@[n - 1]@);
        }
        if n == 0 || !are_same_path(out[n - 1].as_str(), list[i].as_str()) {
            out.push(list[i].clone());
        }
        i = i + 1;
    }
    assert(all.take(i as int) =~= all);
    out
}

/// The roots of a workspace. `worktrees` are the directories of the worktrees that
/// were found.
pub fn discover_workspace_roots(monitor: &WorkspaceMonitor, worktrees: &Vec<String>) -> (r: Vec<
    String,
>)
    ensures
        text::views(r@) == roots_of(monitor@, text::views(worktrees@)),
{
    let mut roots: Vec<String> = Vec::new();
    roots.push(monitor.path.clone());
    assert(text::views(roots@) =~= seq![monitor.path@]);
    if monitor.discover_worktrees {
        let ghost all = text::views(worktrees@);
        let ghost start = text::views(roots@);
        let mut i: usize = 0;
        assert(start + all.take(0) =~= start);
        while i < worktrees.len()
            invariant
                i <= worktrees.len(),
                all == text::views(worktrees@),
                text::views(roots@) == start + all.take(i as int),
            decreases worktrees.len() - i,
        {
            roots.push(worktrees[i].clone());
            assert(text::views(roots@) =~= start + all.take(i + 1));
            i = i + 1;
        }
        assert(all.take(i as int) =~= all);
    }
    let sorted = put_in_path_order(&roots);
    drop_repeats(&sorted)
}

/// What is found in the files of a workspace: its worktrees, and whether its root
/// is there.
#[derive(Debug)]
pub struct FoundWorkspace {
    pub worktrees: Vec<String>,
    pub exists: bool,
}

/// What is found in the files of a workspace.
pub struct FoundView {
    pub worktrees: Seq<Seq<char>>,
    pub exists: bool,
}

impl View for FoundWorkspace {
    type V = FoundView;

    open spec fn view(&self) -> FoundView {
        FoundView { worktrees: text::views(self.worktrees@), exists: self.exists }
    }
}

/// The workspaces at some roots.
pub open spec fn workspaces_at(monitor: WorkspaceMonitorView, roots: Seq<Seq<char>>) -> Seq<
    TopologyView,
> {
    Seq::new(roots.len(), |i: int| workspace_at(monitor, roots[i]))
}

/// The workspaces of some monitors, as they are found.
pub open spec fn gathered(monitors: Seq<WorkspaceMonitorView>, found: Seq<FoundView>) -> Seq<
    TopologyView,
>
    decreases monitors.len(),
{
    if monitors.len() == 0 {
        Seq::empty()
    } else {
        let monitor = monitors.last();
        let here = found[monitors.len() - 1];
        let with_roots = gathered(monitors.drop_last(), found) + workspaces_at(
            monitor,
            roots_of(monitor, here.worktrees),
        );
        if here.exists {
            with_roots
        } else {
            with_roots.push(workspace_at(monitor, monitor.path))
        }
    }
}

/// A list in the order of its roots with one more workspace in its place.
pub open spec fn placed_workspace(list: Seq<TopologyView>, one: TopologyView) -> Seq<TopologyView>
    decreases list.len(),
{
    if list.len() > 0 && components::path_before(one.workspace_root, list.last().workspace_root) {
        placed_workspace(list.drop_last(), one).push(list.last())
    } else {
        list.push(one)
    }
}

/// Some workspaces in the order of their roots.
pub open spec fn in_root_order(list: Seq<TopologyView>) -> Seq<TopologyView>
    decreases list.len(),
{
    if list.len() == 0 {
        Seq::empty()
    } else {
        placed_workspace(in_root_order(list.drop_last()), list.last())
    }
}

/// Two entries stand for the same workspace of the same monitor.
pub open spec fn same_workspace(a: TopologyView, b: TopologyView) -> bool {
    components::same_path(a.workspace_root, b.workspace_root) && a.monitor.path == b.monitor.path
}

/// A list without the workspaces that are the same as the one before them.
pub open spec fn each_once(list: Seq<TopologyView>) -> Seq<TopologyView>
    decreases list.len(),
{
    if list.len() == 0 {
        Seq::empty()
    } else {
        let front = each_once(list.drop_last());
        if front.len() > 0 && same_workspace(list.last(), front.last()) {
            front
        } else {
            front.push(list.last())
        }
    }
}

/// The workspaces of a configuration, as they are found.
pub open spec fn topology_of(config: AppSettingsView, found: Seq<FoundView>) -> Seq<TopologyView> {
    each_once(in_root_order(gathered(config.monitors.workspace, found)))
}

fn place_workspace<'a>(list: &mut Vec<MonitorTopology<'a>>, one: MonitorTopology<'a>)
    ensures
        text::all_views(final(list)@) == placed_workspace(text::all_views(old(list)@), one@),
{
    let ghost all = text::all_views(list@);
    let mut i: usize = list.len();
    assert(all.take(i as int) =~= all);
    assert(all.skip(i as int) =~= Seq::empty());
    assert(placed_workspace(all, one@) + Seq::empty() =~= placed_workspace(all, one@));
    while i > 0 && comes_first(one.workspace_root.as_str(), list[i - 1].workspace_root.as_str())
        invariant
            i <= list.len(),
            list@ == old(list)@,
            all == text::all_views(list@),
            placed_workspace(all, one@) == placed_workspace(all.take(i as int), one@) + all.skip(
                i as int,
            ),
        decreases i,
    {
        let ghost front = all.take(i as int);
        assert(front.last() == list@[i - 1]@);
        assert(front.drop_last() =~= all.take(i - 1));
        assert(all.skip(i - 1) =~= seq![front.last()] + all.skip(i as int));
        assert(placed_workspace(front.drop_last(), one@).push(front.last()) + all.skip(i as int)
            =~= placed_workspace(all.take(i - 1), one@) + all.skip(i - 1));
        i = i - 1;
    }
    let ghost front = all.take(i as int);
    if i > 0 {
        assert(front.last() == list@[i - 1]@);
    }
    let ghost view = one@;
    let ghost before = list@;
    list.insert(i, one);
    assert(text::all_views(list@) =~= front.push(view) + all.skip(i as int));
}

fn push_workspace<'a>(list: &mut Vec<MonitorTopology<'a>>, one: MonitorTopology<'a>)
    ensures
        text::all_views(final(list)@) == text::all_views(old(list)@).push(one@),
{
    let ghost before = text::all_views(list@);
    let ghost view = one@;
    list.push(one);
    assert(text::all_views(list@) =~= before.push(view));
}

fn gather<'a>(monitors: &'a Vec<WorkspaceMonitor>, found: &Vec<FoundWorkspace>) -> (r: Vec<
    MonitorTopology<'a>,
>)
    requires
        found@.len() == monitors@.len(),
    ensures
        text::all_views(r@) == gathered(text::all_views(monitors@), text::all_views(found@)),
{
    let ghost all = text::all_views(monitors@);
    let ghost here = text::all_views(found@);
    let mut out: Vec<MonitorTopology> = Vec::new();
    assert(text::all_views(out@) =~= Seq::<TopologyView>::empty());
    let mut i: usize = 0;
    while i < monitors.len()
        invariant
            i <= monitors.len() == found@.len(),
            all == text::all_views(monitors@),
            here == text::all_views(found@),
            text::all_views(out@) == gathered(all.take(i as int), here),
        decreases monitors.len() - i,
    {
        assert(all.take(i + 1).drop_last() =~= all.take(i as int));
        assert(all.take(i + 1).last() == monitors@[i as int]@);
        assert(here[i as int] == found@[i as int]@);
        let monitor = &monitors[i];
        let roots = discover_workspace_roots(monitor, &found[i].worktrees);
        let ghost start = text::all_views(out@);
        let ghost wanted = workspaces_at(monitor@, text::views(roots@));
        let mut k: usize = 0;
        assert(start + wanted.take(0) =~= start);
        while k < roots.len()
            invariant
                k <= roots.len(),
                wanted == workspaces_at(monitor@, text::views(roots@)),
                text::all_views(out@) == start + wanted.take(k as int),
            decreases roots.len() - k,
        {
            push_workspace(&mut out, make_workspace(monitor, roots[k].as_str()));
            assert(text::all_views(out@) =~= start + wanted.take(k + 1));
            k = k + 1;
        }
        assert(wanted.take(k as int) =~= wanted);
        if !found[i].exists {
            push_workspace(&mut out, make_workspace(monitor, monitor.path.as_str()));
        }
        i = i + 1;
    }
    assert(all.take(i as int) =~= all);
    out
}

/// The workspaces of a configuration. `found` says of each of its monitors what is
/// found in the files.
pub fn build_topology<'a>(config: &'a AppConfig, found: &Vec<FoundWorkspace>) -> (r: Vec<
    MonitorTopology<'a>,
>)
    requires
        found@.len() == config@.monitors.workspace.len(),
    ensures
        text::all_views(r@) == topology_of(config@, text::all_views(found@)),
{
    assert(text::all_views(config.monitors.workspace@).len()
        == config.monitors.workspace@.len());
    let mut rest = gather(&config.monitors.workspace, found);
    let ghost all = text::all_views(rest@);
    let mut sorted: Vec<MonitorTopology> = Vec::new();
    assert(text::all_views(sorted@) =~= Seq::<TopologyView>::empty());
    let ghost mut done: int = 0;
    assert(all.skip(0) =~= all);
    while rest.len() > 0
        invariant
            0 <= done <= all.len(),
            text::all_views(rest@) == all.skip(done),
            text::all_views(sorted@) == in_root_order(all.take(done)),
        decreases rest.len(),
    {
        assert(text::all_views(rest@).len() == rest@.len());
        let ghost before = rest@;
        assert(text::all_views(before)[0] == before[0]@);
        assert(all.skip(done)[0] == all[done]);
        let one = rest.remove(0);
        assert(text::all_views(rest@) =~= all.skip(done + 1)) by {
            assert forall|k: int| 0 <= k < rest@.len() implies #[trigger] text::all_views(
                rest@,
            )[k] == all.skip(done + 1)[k] by {
                assert(text::all_views(before)[k + 1] == all.skip(done)[k + 1]);
            }
        }
        assert(all.take(done + 1).drop_last() =~= all.take(done));
        assert(all.take(done + 1).last() == one@);
        place_workspace(&mut sorted, one);
        proof {
            done = done + 1;
        }
    }
    assert(text::all_views(rest@).len() == rest@.len());
    assert(all.take(done) =~= all);
    let ghost ordered = text::all_views(sorted@);
    let mut once: Vec<MonitorTopology> = Vec::new();
    assert(text::all_views(once@) =~= Seq::<TopologyView>::empty());
    let ghost mut passed: int = 0;
    assert(ordered.skip(0) =~= ordered);
    while sorted.len() > 0
        invariant
            0 <= passed <= ordered.len(),
            text::all_views(sorted@) == ordered.skip(passed),
            text::all_views(once@) == each_once(ordered.take(passed)),
        decreases sorted.len(),
    {
        assert(text::all_views(sorted@).len() == sorted@.len());
        let ghost before = sorted@;
        assert(text::all_views(before)[0] == before[0]@);
        assert(ordered.skip(passed)[0] == ordered[passed]);
        let one = sorted.remove(0);
        assert(text::all_views(sorted@) =~= ordered.skip(passed + 1)) by {
            assert forall|k: int| 0 <= k < sorted@.len() implies #[trigger] text::all_views(
                sorted@,
            )[k] == ordered.skip(passed + 1)[k] by {
                assert(text::all_views(before)[k + 1] == ordered.skip(passed)[k + 1]);
            }
        }
        assert(ordered.take(passed + 1).drop_last() =~= ordered.take(passed));
        assert(ordered.take(passed + 1).last() == one@);
        let n = once.len();
        assert(text::all_views(once@).len() == n);
        let repeats = if n > 0 {
            assert(text::all_views(once@).last() == once@[n - 1]@);
            are_same_path(
                one.workspace_root.as_str(),
                once[n - 1].workspace_root.as_str(),
            ) && text::same(one.monitor.path.as_str(), once[n - 1].monitor.path.as_str())
        } else {
            false
        };
        if !repeats {
            push_workspace(&mut once, one);
        }
        proof {
            passed = passed + 1;
        }
    }
    assert(text::all_views(sorted@).len() == sorted@.len());
    assert(ordered.take(passed) =~= ordered);
    once
}

// ---------------------------------------------------------------------------
// To whom a file belongs
// ---------------------------------------------------------------------------

/// The match of a file in the directories of a workspace, from a position on.
pub open spec fn match_in_dirs(entry: TopologyView, i: int, path: Seq<char>) -> Option<MatchView>
    decreases entry.watch_dirs.len() - i,
{
    if i >= entry.watch_dirs.len() {
        None
    } else {
        let dir = entry.watch_dirs[i];
        match components::rest_below(path, dir.path) {
            Some(rest) => Some(
                MatchView {
                    monitor: entry.monitor,
                    workspace_root: entry.workspace_root,
                    workspace_name: entry.workspace_name,
                    state_family: dir.state_family,
                    watch_dir: dir.path,
                    state_file: rest,
                },
            ),
            None => match_in_dirs(entry, i + 1, path),
        }
    }
}

/// The match of a file in some workspaces, from a position on: the first counts.
pub open spec fn match_of(topology: Seq<TopologyView>, i: int, path: Seq<char>) -> Option<MatchView>
    decreases topology.len() - i,
{
    if i >= topology.len() {
        None
    } else {
        match match_in_dirs(topology[i], 0, path) {
            Some(found) => Some(found),
            None => match_of(topology, i + 1, path),
        }
    }
}

/// The match of a file.
pub open spec fn opt_match(o: Option<WorkspaceMatch>) -> Option<MatchView> {
    match o {
        Some(m) => Some(m@),
        None => None,
    }
}

/// The workspace to which a file belongs.
pub fn classify_path<'a>(topology: &Vec<MonitorTopology<'a>>, path: &str) -> (r: Option<
    WorkspaceMatch<'a>,
>)
    ensures
        opt_match(r) == match_of(text::all_views(topology@), 0, path@),
{
    let ghost all = text::all_views(topology@);
    let mut i: usize = 0;
    while i < topology.len()
        invariant
            i <= topology.len(),
            all == text::all_views(topology@),
            match_of(all, 0, path@) == match_of(all, i as int, path@),
        decreases topology.len() - i,
    {
        let entry = &topology[i];
        assert(all[i as int] == entry@);
        let ghost dirs = text::all_views(entry.watch_dirs@);
        let mut k: usize = 0;
        while k < entry.watch_dirs.len()
            invariant
                k <= entry.watch_dirs.len(),
                dirs == text::all_views(entry.watch_dirs@),
                i < topology.len(),
                entry == topology@[i as int],
                all == text::all_views(topology@),
                all[i as int] == entry@,
                match_of(all, 0, path@) == match_of(all, i as int, path@),
                match_in_dirs(entry@, 0, path@) == match_in_dirs(entry@, k as int, path@),
            decreases entry.watch_dirs.len() - k,
        {
            let dir = &entry.watch_dirs[k];
            assert(dirs[k as int] == dir@);
            match strip_dir(path, dir.path.as_str()) {
                Some(state_file) => {
                    return Some(
                        WorkspaceMatch {
                            monitor: entry.monitor,
                            workspace_root: entry.workspace_root.clone(),
                            workspace_name: entry.workspace_name.clone(),
                            state_family: dir.state_family.clone(),
                            watch_dir: dir.path.clone(),
                            state_file,
                        },
                    );
                },
                None => {},
            }
            k = k + 1;
        }
        assert(dirs.len() == entry.watch_dirs@.len());
        i = i + 1;
    }
    assert(all.len() == topology@.len());
    None
}

/// The milliseconds for which a changed file must stay as it is.
pub open spec fn debounce_of(topology: Seq<TopologyView>, path: Seq<char>) -> u64 {
    let named: u64 = match match_of(topology, 0, path) {
        Some(m) => m.monitor.debounce_ms,
        None => 2000,
    };
    if named > 1 {
        named
    } else {
        1
    }
}

/// The milliseconds for which a changed file must stay as it is.
pub fn debounce_for_path(topology: &Vec<MonitorTopology>, path: &str) -> (r: u64)
    ensures
        r == debounce_of(text::all_views(topology@), path@),
{
    let named: u64 = match classify_path(topology, path) {
        Some(m) => m.monitor.debounce_ms,
        None => 2000,
    };
    if named > 1 {
        named
    } else {
        1
    }
}

/// The shortest of the intervals that monitors name.
pub open spec fn shortest(monitors: Seq<WorkspaceMonitorView>) -> Option<u64>
    decreases monitors.len(),
{
    if monitors.len() == 0 {
        None
    } else {
        let so_far = shortest(monitors.drop_last());
        match (so_far, monitors.last().poll_interval_secs) {
            (Some(a), Some(b)) => if b < a {
                Some(b)
            } else {
                Some(a)
            },
            (None, Some(b)) => Some(b),
            (_, None) => so_far,
        }
    }
}

/// The seconds between two polls: the shortest interval that a monitor names, or
/// the one of all monitors, and one at least.
pub fn global_poll_interval(config: &AppConfig) -> (r: u64)
    ensures
        r == ({
            let named: u64 = match shortest(config@.monitors.workspace) {
                Some(n) => n,
                None => config@.monitors.poll_interval_secs,
            };
            if named > 1 {
                named
            } else {
                1
            }
        }),
{
    let monitors = &config.monitors.workspace;
    let ghost all = text::all_views(monitors@);
    let mut least: Option<u64> = None;
    let mut i: usize = 0;
    while i < monitors.len()
        invariant
            i <= monitors.len(),
            all == text::all_views(monitors@),
            least == shortest(all.take(i as int)),
        decreases monitors.len() - i,
    {
        assert(all.take(i + 1).drop_last() =~= all.take(i as int));
        assert(all.take(i + 1).last() == monitors@[i as int]@);
        match monitors[i].poll_interval_secs {
            Some(secs) => {
                least = match least {
                    Some(n) => if secs < n {
                        Some(secs)
                    } else {
                        Some(n)
                    },
                    None => Some(secs),
                };
            },
            None => {},
        }
        i = i + 1;
    }
    assert(all.take(i as int) =~= all);
    let named: u64 = match least {
        Some(n) => n,
        None => config.monitors.poll_interval_secs,
    };
    if named > 1 {
        named
    } else {
        1
    }
}

/// The roots of some workspaces, in order and each once.
pub fn inotify_roots(topology: &Vec<MonitorTopology>) -> (r: Vec<String>)
    ensures
        text::views(r@) == without_repeats(
            in_path_order(
                Seq::new(topology@.len(), |i: int| topology@[i]@.workspace_root),
            ),
        ),
{
    let ghost wanted = Seq::new(topology@.len(), |i: int| topology@[i]@.workspace_root);
    let mut roots: Vec<String> = Vec::new();
    let mut i: usize = 0;
    while i < topology.len()
        invariant
            i <= topology.len(),
            wanted == Seq::new(topology@.len(), |i: int| topology@[i]@.workspace_root),
            text::views(roots@) == wanted.take(i as int),
        decreases topology.len() - i,
    {
        roots.push(topology[i].workspace_root.clone());
        assert(text::views(roots@) =~= wanted.take(i + 1));
        i = i + 1;
    }
    assert(wanted.take(i as int) =~= wanted);
    let sorted = put_in_path_order(&roots);
    drop_repeats(&sorted)
}

// ---------------------------------------------------------------------------
// Changes
// ---------------------------------------------------------------------------

/// By what a change of a file is noticed.
#[derive(Debug, Clone, Copy, PartialEq, Eq, Structural)]
pub struct FileSignature {
    pub modified_ms: u128,
    pub len: u64,
}

impl View for FileSignature {
    type V = FileSignature;

    open spec fn view(&self) -> FileSignature {
        *self
    }
}

/// What is remembered of state files, in tables by their paths.
#[derive(Debug)]
pub struct WorkspaceState {
    pub signatures: Vec<(String, FileSignature)>,
    pub snapshots: Vec<(String, Json)>,
    /// The moments, in milliseconds, when changed files are looked at.
    pub pending: Vec<(String, u64)>,
}

/// What is remembered of state files.
pub struct WatchedView {
    pub signatures: Seq<(Seq<char>, FileSignature)>,
    pub snapshots: Seq<(Seq<char>, Node)>,
    pub pending: Seq<(Seq<char>, u64)>,
}

impl View for WorkspaceState {
    type V = WatchedView;

    open spec fn view(&self) -> WatchedView {
        WatchedView {
            signatures: table::pairs(self.signatures@),
            snapshots: json::members(self.snapshots@),
            pending: table::pairs(self.pending@),
        }
    }
}

impl WatchedView {
    /// The tables are in the order of their keys.
    pub open spec fn well_formed(self) -> bool {
        table::in_order(self.snapshots) && table::in_order(self.pending)
    }
}

/// A moment some milliseconds later, as far as it can be told.
pub open spec fn later(now_ms: u64, wait_ms: u64) -> u64 {
    if now_ms + wait_ms > u64::MAX {
        u64::MAX
    } else {
        (now_ms + wait_ms) as u64
    }
}

fn moment_after(now_ms: u64, wait_ms: u64) -> (r: u64)
    ensures
        r == later(now_ms, wait_ms),
{
    if wait_ms > u64::MAX - now_ms {
        u64::MAX
    } else {
        now_ms + wait_ms
    }
}

/// A file whose signature is another, or is new.
pub open spec fn is_changed(
    known: Seq<(Seq<char>, FileSignature)>,
    path: Seq<char>,
    signature: FileSignature,
) -> bool {
    table::lookup(known, path) != Some(signature)
}

/// The moments of the files that are new or have changed.
pub open spec fn with_changed(
    pending: Seq<(Seq<char>, u64)>,
    known: Seq<(Seq<char>, FileSignature)>,
    found: Seq<(Seq<char>, FileSignature)>,
    topology: Seq<TopologyView>,
    now_ms: u64,
) -> Seq<(Seq<char>, u64)>
    decreases found.len(),
{
    if found.len() == 0 {
        pending
    } else {
        let so_far = with_changed(pending, known, found.drop_last(), topology, now_ms);
        let (path, signature) = found.last();
        if is_changed(known, path, signature) {
            table::put(so_far, path, later(now_ms, debounce_of(topology, path)))
        } else {
            so_far
        }
    }
}

/// The moments of the files that are gone.
pub open spec fn with_gone(
    pending: Seq<(Seq<char>, u64)>,
    known: Seq<(Seq<char>, FileSignature)>,
    found: Seq<(Seq<char>, FileSignature)>,
    topology: Seq<TopologyView>,
    now_ms: u64,
) -> Seq<(Seq<char>, u64)>
    decreases known.len(),
{
    if known.len() == 0 {
        pending
    } else {
        let so_far = with_gone(pending, known.drop_last(), found, topology, now_ms);
        let path = known.last().0;
        if table::lookup(found, path) is None {
            table::put(so_far, path, later(now_ms, debounce_of(topology, path)))
        } else {
            so_far
        }
    }
}

/// What is remembered after a look at the files of all workspaces.
pub open spec fn reconciled(
    state: WatchedView,
    found: Seq<(Seq<char>, FileSignature)>,
    topology: Seq<TopologyView>,
    now_ms: u64,
) -> WatchedView {
    WatchedView {
        signatures: found,
        pending: with_gone(
            with_changed(state.pending, state.signatures, found, topology, now_ms),
            state.signatures,
            found,
            topology,
            now_ms,
        ),
        ..state
    }
}

/// A change whose moment has come.
pub open spec fn is_due(now_ms: u64) -> spec_fn((Seq<char>, u64)) -> bool {
    |entry: (Seq<char>, u64)| entry.1 <= now_ms
}

/// A change whose moment has not come.
pub open spec fn is_not_due(now_ms: u64) -> spec_fn((Seq<char>, u64)) -> bool {
    |entry: (Seq<char>, u64)| entry.1 > now_ms
}

/// The keys of a table.
pub open spec fn keys_of<V>(m: Seq<(Seq<char>, V)>) -> Seq<Seq<char>> {
    Seq::new(m.len(), |i: int| m[i].0)
}

/// What is remembered of a file after a look at it, and the event that follows.
pub open spec fn processed(
    snapshots: Seq<(Seq<char>, Node)>,
    topology: Seq<TopologyView>,
    path: Seq<char>,
    current: Option<Node>,
) -> (Seq<(Seq<char>, Node)>, Option<EventView>) {
    match match_of(topology, 0, path) {
        None => (table::without(snapshots, path), None),
        Some(m) => {
            let event = workspace_diff::allowed_change(m, table::lookup(snapshots, path), current);
            (
                match current {
                    Some(node) => table::put(snapshots, path, node),
                    None => if event is Some {
                        table::without(snapshots, path)
                    } else {
                        snapshots
                    },
                },
                event,
            )
        },
    }
}

impl WorkspaceState {
    /// Nothing is known of any file.
    pub fn new() -> (r: Self)
        ensures
            r@ == (WatchedView {
                signatures: Seq::empty(),
                snapshots: Seq::empty(),
                pending: Seq::empty(),
            }),
            r@.well_formed(),
    {
        let r = WorkspaceState {
            signatures: Vec::new(),
            snapshots: Vec::new(),
            pending: Vec::new(),
        };
        assert(r@.signatures =~= Seq::empty());
        assert(r@.snapshots =~= Seq::empty());
        assert(r@.pending =~= Seq::empty());
        r
    }

    /// Takes the files as they are found, with the contents of those that could be
    /// read.
    pub fn prime(&mut self, signatures: Vec<(String, FileSignature)>, contents: &Vec<(String, Json)>)
        requires
            old(self)@.well_formed(),
        ensures
            final(self)@.signatures == table::pairs(signatures@),
            final(self)@.pending == old(self)@.pending,
            final(self)@.snapshots == table::extended(
                old(self)@.snapshots,
                json::members(contents@),
            ),
            final(self)@.well_formed(),
    {
        let ghost start = self@.snapshots;
        let ghost all = json::members(contents@);
        let mut i: usize = 0;
        while i < contents.len()
            invariant
                i <= contents.len(),
                all == json::members(contents@),
                self@.pending == old(self)@.pending,
                self@.snapshots == table::extended(start, all.take(i as int)),
                self@.well_formed(),
            decreases contents.len() - i,
        {
            assert(all.take(i + 1).drop_last() =~= all.take(i as int));
            assert(all.take(i + 1).last() == all[i as int]);
            proof {
                table::law_put_keeps_order(
                    self@.snapshots,
                    all[i as int].0,
                    all[i as int].1,
                );
            }
            set_entry(&mut self.snapshots, contents[i].0.as_str(), contents[i].1.clone());
            i = i + 1;
        }
        assert(all.take(i as int) =~= all);
        self.signatures = signatures;
    }

    /// Notes that a file changed: it is looked at after a while, and the while
    /// begins anew where the file was noted before.
    pub fn note_change(&mut self, path: &str, debounce_ms: u64, now_ms: u64)
        requires
            old(self)@.well_formed(),
        ensures
            final(self)@ == (WatchedView {
                pending: table::put(old(self)@.pending, path@, later(now_ms, debounce_ms)),
                ..old(self)@
            }),
            final(self)@.well_formed(),
    {
        let moment = moment_after(now_ms, debounce_ms);
        proof {
            table::law_put_keeps_order(self@.pending, path@, moment);
        }
        set_entry(&mut self.pending, path, moment);
    }

    /// Takes the files as they are found and notes those that changed or are gone.
    pub fn reconcile(
        &mut self,
        topology: &Vec<MonitorTopology>,
        found: Vec<(String, FileSignature)>,
        now_ms: u64,
    )
        requires
            old(self)@.well_formed(),
        ensures
            final(self)@ == reconciled(
                old(self)@,
                table::pairs(found@),
                text::all_views(topology@),
                now_ms,
            ),
            final(self)@.well_formed(),
    {
        let ghost start = self@;
        let ghost views = text::all_views(topology@);
        let ghost there = table::pairs(found@);
        let ghost known = self@.signatures;
        let mut i: usize = 0;
        while i < found.len()
            invariant
                i <= found.len(),
                there == table::pairs(found@),
                views == text::all_views(topology@),
                known == start.signatures,
                self@.well_formed(),
                self@ == (WatchedView {
                    pending: with_changed(
                        start.pending,
                        known,
                        there.take(i as int),
                        views,
                        now_ms,
                    ),
                    ..start
                }),
            decreases found.len() - i,
        {
            assert(there.take(i + 1).drop_last() =~= there.take(i as int));
            assert(there.take(i + 1).last() == there[i as int]);
            let unchanged = match find_entry(&self.signatures, found[i].0.as_str()) {
                Some(signature) => *signature == found[i].1,
                None => false,
            };
            if !unchanged {
                let debounce_ms = debounce_for_path(topology, found[i].0.as_str());
                self.note_change(found[i].0.as_str(), debounce_ms, now_ms);
            }
            i = i + 1;
        }
        assert(there.take(i as int) =~= there);
        let ghost middle = self@.pending;
        let mut names: Vec<String> = Vec::new();
        let mut n: usize = 0;
        assert(text::views(names@) =~= keys_of(known).take(0));
        while n < self.signatures.len()
            invariant
                n <= self.signatures.len(),
                known == table::pairs(self.signatures@),
                text::views(names@) == keys_of(known).take(n as int),
            decreases self.signatures.len() - n,
        {
            names.push(self.signatures[n].0.clone());
            assert(text::views(names@) =~= keys_of(known).take(n + 1));
            n = n + 1;
        }
        assert(keys_of(known).take(n as int) =~= keys_of(known));
        assert(text::views(names@).len() == names@.len());
        let mut k: usize = 0;
        while k < names.len()
            invariant
                k <= names.len() == known.len(),
                text::views(names@) == keys_of(known),
                there == table::pairs(found@),
                views == text::all_views(topology@),
                known == start.signatures,
                self@.well_formed(),
                self@ == (WatchedView {
                    pending: with_gone(middle, known.take(k as int), there, views, now_ms),
                    ..start
                }),
            decreases names.len() - k,
        {
            assert(known.take(k + 1).drop_last() =~= known.take(k as int));
            assert(known.take(k + 1).last() == known[k as int]);
            assert(text::views(names@)[k as int] == names@[k as int]@);
            if find_entry(&found, names[k].as_str()).is_none() {
                let debounce_ms = debounce_for_path(topology, names[k].as_str());
                self.note_change(names[k].as_str(), debounce_ms, now_ms);
            }
            k = k + 1;
        }
        assert(known.take(k as int) =~= known);
        self.signatures = found;
    }

    /// Takes out the changes whose moment has come.
    pub fn take_due(&mut self, now_ms: u64) -> (r: Vec<String>)
        requires
            old(self)@.well_formed(),
        ensures
            text::views(r@) == keys_of(table::kept(old(self)@.pending, is_due(now_ms))),
            final(self)@ == (WatchedView {
                pending: table::kept(old(self)@.pending, is_not_due(now_ms)),
                ..old(self)@
            }),
            final(self)@.well_formed(),
    {
        let ghost m = self@.pending;
        let mut due: Vec<String> = Vec::new();
        let mut marks: Vec<bool> = Vec::new();
        let mut i: usize = 0;
        assert(text::views(due@) =~= keys_of(table::kept(m.take(0), is_due(now_ms))));
        while i < self.pending.len()
            invariant
                i <= self.pending.len(),
                self@ == old(self)@,
                m == table::pairs(self.pending@),
                marks@.len() == i,
                forall|k: int| 0 <= k < i ==> #[trigger] marks@[k] == (is_not_due(now_ms))(m[k]),
                text::views(due@) == keys_of(table::kept(m.take(i as int), is_due(now_ms))),
            decreases self.pending.len() - i,
        {
            assert(m.take(i + 1).drop_last() =~= m.take(i as int));
            assert(m.take(i + 1).last() == m[i as int]);
            let later_on = self.pending[i].1 > now_ms;
            marks.push(later_on);
            if !later_on {
                let ghost taken = table::kept(m.take(i as int), is_due(now_ms));
                due.push(self.pending[i].0.clone());
                assert(text::views(due@) =~= keys_of(taken.push(m[i as int])));
            }
            i = i + 1;
        }
        assert(m.take(i as int) =~= m);
        proof {
            table::law_kept_keeps_order(m, is_not_due(now_ms));
        }
        keep_marked(&mut self.pending, &marks, Ghost(is_not_due(now_ms)));
        due
    }

    /// Looks at a file: the events that follow. `current` is its content, where it
    /// is there and can be read.
    pub fn process_path(
        &mut self,
        topology: &Vec<MonitorTopology>,
        path: &str,
        current: Option<Json>,
    ) -> (r: Vec<IncomingEvent>)
        requires
            old(self)@.well_formed(),
        ensures
            ({
                let after = processed(
                    old(self)@.snapshots,
                    text::all_views(topology@),
                    path@,
                    table::opt_owned(current),
                );
                &&& final(self)@ == (WatchedView { snapshots: after.0, ..old(self)@ })
                &&& final(self)@.well_formed()
                &&& text::all_views(r@) == (match after.1 {
                    Some(event) => seq![event],
                    None => Seq::empty(),
                })
            }),
    {
        let ghost before = self@.snapshots;
        let none: Vec<IncomingEvent> = Vec::new();
        assert(text::all_views(none@) =~= Seq::<EventView>::empty());
        match classify_path(topology, path) {
            None => {
                proof {
                    table::law_without_keeps_order(before, path@);
                }
                let _ = remove_entry(&mut self.snapshots, path);
                none
            },
            Some(matched) => {
                let events = diff_workspace_state(
                    &matched,
                    find_entry(&self.snapshots, path),
                    match &current {
                        Some(value) => Some(value),
                        None => None,
                    },
                );
                match current {
                    Some(value) => {
                        proof {
                            table::law_put_keeps_order(before, path@, value@);
                        }
                        set_entry(&mut self.snapshots, path, value);
                    },
                    None => {
                        if events.is_some() {
                            proof {
                                table::law_without_keeps_order(before, path@);
                            }
                            let _ = remove_entry(&mut self.snapshots, path);
                        }
                    },
                }
                match events {
                    Some(list) => list,
                    None => none,
                }
            },
        }
    }
}

// ---------------------------------------------------------------------------
// Laws
// ---------------------------------------------------------------------------

/// A file that changes again before it was looked at is looked at later.
pub proof fn law_second_change_puts_off_the_look(
    pending: Seq<(Seq<char>, u64)>,
    path: Seq<char>,
    debounce_ms: u64,
    first_ms: u64,
    second_ms: u64,
)
    requires
        first_ms <= second_ms,
    ensures
        ({
            let once = table::put(pending, path, later(first_ms, debounce_ms));
            let twice = table::put(once, path, later(second_ms, debounce_ms));
            &&& table::lookup(twice, path) == Some(later(second_ms, debounce_ms))
            &&& later(second_ms, debounce_ms) >= later(first_ms, debounce_ms)
        }),
{
    let once = table::put(pending, path, later(first_ms, debounce_ms));
    table::law_put_then_lookup(once, path, later(second_ms, debounce_ms), path);
}

/// A file that belongs to no workspace gives rise to nothing and is forgotten.
pub proof fn law_foreign_file_is_forgotten(
    snapshots: Seq<(Seq<char>, Node)>,
    topology: Seq<TopologyView>,
    path: Seq<char>,
    current: Option<Node>,
)
    requires
        match_of(topology, 0, path) is None,
    ensures
        processed(snapshots, topology, path, current).1 is None,
        table::lookup(processed(snapshots, topology, path, current).0, path) is None,
{
    table::law_without_then_lookup(snapshots, path, path);
}

/// The second look at a file that has not changed in between gives rise to
/// nothing.
pub proof fn law_second_look_is_silent(
    snapshots: Seq<(Seq<char>, Node)>,
    topology: Seq<TopologyView>,
    path: Seq<char>,
    current: Node,
)
    ensures
        processed(
            processed(snapshots, topology, path, Some(current)).0,
            topology,
            path,
            Some(current),
        ).1 is None,
{
    match match_of(topology, 0, path) {
        Some(m) => {
            table::law_put_then_lookup(snapshots, path, current, path);
            workspace_diff::law_unchanged_file_is_silent(m, current);
        },
        None => {},
    }
}

} // verus!
