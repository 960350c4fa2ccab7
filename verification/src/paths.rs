//! Slash-separated paths, as texts.
use vstd::prelude::*;
use vstd::string::*;

use crate::compose;
use crate::compose::{cat3, join};
use crate::scan;
use crate::scan::split_at_each;
use crate::text;
use crate::text::{ends_with, same};

verus! {

broadcast use crate::text::views_push;

/// The last of some path components that names a file: empty components and
/// `.` are passed over, and `..` names none.
pub open spec fn last_name(parts: Seq<Seq<char>>) -> Option<Seq<char>>
    decreases parts.len(),
{
    if parts.len() == 0 {
        None
    } else if parts.last().len() == 0 || parts.last() == "."@ {
        last_name(parts.drop_last())
    } else if parts.last() == ".."@ {
        None
    } else {
        Some(parts.last())
    }
}

/// The name of the file or directory that a path leads to.
pub open spec fn file_name(path: Seq<char>) -> Option<Seq<char>> {
    last_name(scan::split(path, '/'))
}

/// The name of the file or directory that a path leads to.
pub fn file_name_of(path: &str) -> (r: Option<String>)
    ensures
        text::opt_text(r) == file_name(path@),
{
    let parts = split_at_each(path, '/');
    let ghost all = text::views(parts@);
    let mut i: usize = parts.len();
    assert(all.take(i as int) =~= all);
    while i > 0
        invariant
            i <= parts.len(),
            all == text::views(parts@),
            all == scan::split(path@, '/'),
            last_name(all) == last_name(all.take(i as int)),
        decreases i,
    {
        let ghost here = all.take(i as int);
        assert(here.drop_last() =~= all.take(i - 1));
        assert(here.last() == parts@[i - 1]@);
        let part = parts[i - 1].as_str();
        if !part.is_empty() && !same(part, ".") {
            if same(part, "..") {
                return None;
            }
            return Some(parts[i - 1].clone());
        }
        i = i - 1;
    }
    None
}

/// A path below a directory.
pub open spec fn below(dir: Seq<char>, name: Seq<char>) -> Seq<char> {
    if text::begins_with(name, "/"@) {
        name
    } else if dir.len() == 0 || text::finishes_with(dir, "/"@) {
        dir + name
    } else {
        dir + "/"@ + name
    }
}

/// A path below a directory; an absolute path stands for itself.
pub fn join_path(dir: &str, name: &str) -> (r: String)
    ensures
        r@ == below(dir@, name@),
{
    if text::starts_with(name, "/") {
        name.to_owned()
    } else if dir.is_empty() || ends_with(dir, "/") {
        crate::compose::cat2(dir, name)
    } else {
        cat3(dir, "/", name)
    }
}

// ---------------------------------------------------------------------------
// The directory of a path
// ---------------------------------------------------------------------------

/// A part of a path between slashes that counts as a component: not an empty
/// one, and `.` only at the very start.
pub open spec fn counts(parts: Seq<Seq<char>>, i: int) -> bool {
    parts[i].len() > 0 && (i == 0 || parts[i] != "."@)
}

/// The last part before a position that counts as a component, or -1.
pub open spec fn last_counting(parts: Seq<Seq<char>>, end: int) -> int
    decreases end,
{
    if end <= 0 {
        -1
    } else if counts(parts, end - 1) {
        end - 1
    } else {
        last_counting(parts, end - 1)
    }
}

/// A path without its last component; none where it has no component.
pub open spec fn parent(path: Seq<char>) -> Option<Seq<char>> {
    let parts = scan::split(path, '/');
    let k = last_counting(parts, parts.len() as int);
    let j = last_counting(parts, k);
    if k < 0 {
        None
    } else if j >= 0 {
        Some(compose::joined(parts.take(j + 1), "/"@))
    } else if parts[0].len() == 0 {
        Some("/"@)
    } else {
        Some(""@)
    }
}

/// The directory of a path, and the current one where it has none.
pub open spec fn parent_or_here(path: Seq<char>) -> Seq<char> {
    match parent(path) {
        Some(dir) => dir,
        None => "."@,
    }
}

fn find_counting(parts: &Vec<String>, end: usize) -> (r: Option<usize>)
    requires
        end <= parts@.len(),
    ensures
        match r {
            Some(i) => i < end && last_counting(text::views(parts@), end as int) == i,
            None => last_counting(text::views(parts@), end as int) < 0,
        },
{
    let ghost all = text::views(parts@);
    let mut i: usize = end;
    while i > 0
        invariant
            i <= end <= parts@.len(),
            all == text::views(parts@),
            last_counting(all, end as int) == last_counting(all, i as int),
        decreases i,
    {
        let part = parts[i - 1].as_str();
        assert(part@ == all[i - 1]);
        if !part.is_empty() && (i == 1 || !same(part, ".")) {
            return Some(i - 1);
        }
        i = i - 1;
    }
    None
}

/// A path without its last component; none where it has no component.
pub fn parent_of(path: &str) -> (r: Option<String>)
    ensures
        text::opt_text(r) == parent(path@),
{
    let parts = split_at_each(path, '/');
    let ghost all = text::views(parts@);
    assert(all.len() == parts@.len());
    let k = match find_counting(&parts, parts.len()) {
        Some(k) => k,
        None => return None,
    };
    match find_counting(&parts, k) {
        Some(j) => {
            let mut front: Vec<String> = Vec::new();
            let mut i: usize = 0;
            assert(text::views(front@) =~= all.take(0));
            while i <= j
                invariant
                    i <= j + 1,
                    j < parts.len(),
                    all == text::views(parts@),
                    text::views(front@) == all.take(i as int),
                decreases j + 1 - i,
            {
                let part = parts[i].clone();
                assert(part@ == all[i as int]);
                front.push(part);
                assert(all.take(i + 1) =~= all.take(i as int).push(all[i as int]));
                i = i + 1;
            }
            Some(join(&front, "/"))
        },
        None => {
            assert(all[0] == parts@[0]@);
            if parts[0].as_str().is_empty() {
                Some("/".to_owned())
            } else {
                Some("".to_owned())
            }
        },
    }
}

/// The directory of a path, and the current one where it has none.
pub fn parent_or_dot(path: &str) -> (r: String)
    ensures
        r@ == parent_or_here(path@),
{
    match parent_of(path) {
        Some(dir) => dir,
        None => ".".to_owned(),
    }
}

} // verus!
