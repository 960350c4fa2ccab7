//! Workspaces whose state files are watched.
use vstd::prelude::*;
use vstd::string::*;

use crate::text;

verus! {

/// The directories of a workspace that are watched unless others are named.
pub open spec fn watch_dirs() -> Seq<Seq<char>> {
    seq![".omx/state"@, ".omc/state"@]
}

/// The directories of a workspace that are watched unless others are named.
pub fn default_workspace_watch_dirs() -> (r: Vec<String>)
    ensures
        text::views(r@) == watch_dirs(),
{
    let r = vec![".omx/state".to_owned(), ".omc/state".to_owned()];
    assert(text::views(r@) =~= watch_dirs());
    r
}

/// The milliseconds for which a changed file must stay as it is.
pub fn default_workspace_debounce_ms() -> (r: u64)
    ensures
        r == 2000,
{
    2000
}

} // verus!
