//! Events that the hooks of coding tools send.
use vstd::prelude::*;
use vstd::string::*;

use crate::compose::{cat2, cat3};
use crate::events;
use crate::events::{EventView, IncomingEvent};
use crate::json;
use crate::json::{Json, Node};
use crate::labels;
use crate::labels::{first_of, text_or};
use crate::paths;
use crate::paths::file_name_of;
use crate::scan;
use crate::scan::{lower, replace};
use crate::table;
use crate::text;
use crate::text::{copy_opt, same, trim};

verus! {

broadcast use crate::json::group_trees;

// ---------------------------------------------------------------------------
// Where a hook puts what it knows
// ---------------------------------------------------------------------------

/// The first of some paths at which a text stands that is not blank.
pub open spec fn first_at(node: Node, places: Seq<&'static str>) -> Option<Seq<char>>
    decreases places.len(),
{
    if places.len() == 0 {
        None
    } else {
        text::or_else(json::field_at(node, places[0]@), first_at(node, places.drop_first()))
    }
}

fn first_string(payload: &Json, places: Vec<&'static str>) -> (r: Option<String>)
    ensures
        text::opt_text(r) == first_at(payload@, places@),
{
    let ghost all = places@;
    let mut i: usize = 0;
    assert(all.skip(0) =~= all);
    while i < places.len()
        invariant
            i <= places.len(),
            all == places@,
            first_at(payload@, all) == first_at(payload@, all.skip(i as int)),
        decreases places.len() - i,
    {
        assert(all.skip(i as int).drop_first() =~= all.skip(i + 1));
        match payload.field_at(places[i]) {
            Some(s) => return Some(s),
            None => {},
        }
        i = i + 1;
    }
    None
}

/// Where the provider may stand.
pub open spec fn provider_paths() -> Seq<&'static str> {
    seq![
        "/provider",
        "/source/provider",
        "/context/provider",
        "/payload/provider",
    ]
}

fn provider_places() -> (r: Vec<&'static str>)
    ensures
        r@ == provider_paths(),
{
    vec![
        "/provider",
        "/source/provider",
        "/context/provider",
        "/payload/provider",
    ]
}

/// Where the name of the hook event may stand.
pub open spec fn event_name_paths() -> Seq<&'static str> {
    seq![
        "/event_name",
        "/event",
        "/hook_event_name",
        "/hookEventName",
        "/payload/hook_event_name",
        "/payload/hookEventName",
    ]
}

fn event_name_places() -> (r: Vec<&'static str>)
    ensures
        r@ == event_name_paths(),
{
    vec![
        "/event_name",
        "/event",
        "/hook_event_name",
        "/hookEventName",
        "/payload/hook_event_name",
        "/payload/hookEventName",
    ]
}

/// Where the directory may stand.
pub open spec fn directory_paths() -> Seq<&'static str> {
    seq![
        "/directory",
        "/cwd",
        "/context/directory",
        "/context/cwd",
        "/payload/cwd",
        "/payload/directory",
        "/repo_path",
        "/projectPath",
        "/context/projectPath",
    ]
}

fn directory_places() -> (r: Vec<&'static str>)
    ensures
        r@ == directory_paths(),
{
    vec![
        "/directory",
        "/cwd",
        "/context/directory",
        "/context/cwd",
        "/payload/cwd",
        "/payload/directory",
        "/repo_path",
        "/projectPath",
        "/context/projectPath",
    ]
}

/// Where the path of the repository may stand.
pub open spec fn repo_path_paths() -> Seq<&'static str> {
    seq![
        "/repo_path",
        "/context/repo_path",
        "/payload/repo_path",
        "/git/repo_path",
    ]
}

fn repo_path_places() -> (r: Vec<&'static str>)
    ensures
        r@ == repo_path_paths(),
{
    vec![
        "/repo_path",
        "/context/repo_path",
        "/payload/repo_path",
        "/git/repo_path",
    ]
}

/// Where the path of the worktree may stand.
pub open spec fn worktree_path_paths() -> Seq<&'static str> {
    seq![
        "/worktree_path",
        "/context/worktree_path",
        "/payload/worktree_path",
        "/payload/cwd",
    ]
}

fn worktree_path_places() -> (r: Vec<&'static str>)
    ensures
        r@ == worktree_path_paths(),
{
    vec![
        "/worktree_path",
        "/context/worktree_path",
        "/payload/worktree_path",
        "/payload/cwd",
    ]
}

/// Where the project may stand.
pub open spec fn project_paths() -> Seq<&'static str> {
    seq![
        "/project",
        "/project_name",
        "/projectName",
        "/context/project",
        "/context/project_name",
        "/context/projectName",
        "/payload/project",
        "/payload/project_name",
    ]
}

fn project_places() -> (r: Vec<&'static str>)
    ensures
        r@ == project_paths(),
{
    vec![
        "/project",
        "/project_name",
        "/projectName",
        "/context/project",
        "/context/project_name",
        "/context/projectName",
        "/payload/project",
        "/payload/project_name",
    ]
}

/// Where the name of the repository may stand.
pub open spec fn repo_name_paths() -> Seq<&'static str> {
    seq![
        "/repo_name",
        "/context/repo_name",
        "/payload/repo_name",
    ]
}

fn repo_name_places() -> (r: Vec<&'static str>)
    ensures
        r@ == repo_name_paths(),
{
    vec![
        "/repo_name",
        "/context/repo_name",
        "/payload/repo_name",
    ]
}

/// Where the session may stand.
pub open spec fn session_id_paths() -> Seq<&'static str> {
    seq![
        "/session_id",
        "/sessionId",
        "/payload/session_id",
        "/payload/sessionId",
        "/context/session_id",
        "/context/sessionId",
    ]
}

fn session_id_places() -> (r: Vec<&'static str>)
    ensures
        r@ == session_id_paths(),
{
    vec![
        "/session_id",
        "/sessionId",
        "/payload/session_id",
        "/payload/sessionId",
        "/context/session_id",
        "/context/sessionId",
    ]
}

/// Where the turn may stand.
pub open spec fn turn_id_paths() -> Seq<&'static str> {
    seq![
        "/turn_id",
        "/turnId",
        "/payload/turn_id",
        "/payload/turnId",
    ]
}

fn turn_id_places() -> (r: Vec<&'static str>)
    ensures
        r@ == turn_id_paths(),
{
    vec![
        "/turn_id",
        "/turnId",
        "/payload/turn_id",
        "/payload/turnId",
    ]
}

/// Where the tool may stand.
pub open spec fn tool_name_paths() -> Seq<&'static str> {
    seq![
        "/tool_name",
        "/toolName",
        "/payload/tool_name",
        "/payload/toolName",
    ]
}

fn tool_name_places() -> (r: Vec<&'static str>)
    ensures
        r@ == tool_name_paths(),
{
    vec![
        "/tool_name",
        "/toolName",
        "/payload/tool_name",
        "/payload/toolName",
    ]
}

/// Where the command may stand.
pub open spec fn command_paths() -> Seq<&'static str> {
    seq![
        "/command",
        "/tool_input/command",
        "/payload/tool_input/command",
        "/payload/command",
    ]
}

fn command_places() -> (r: Vec<&'static str>)
    ensures
        r@ == command_paths(),
{
    vec![
        "/command",
        "/tool_input/command",
        "/payload/tool_input/command",
        "/payload/command",
    ]
}

/// Where the prompt may stand.
pub open spec fn prompt_paths() -> Seq<&'static str> {
    seq![
        "/prompt",
        "/payload/prompt",
    ]
}

fn prompt_places() -> (r: Vec<&'static str>)
    ensures
        r@ == prompt_paths(),
{
    vec![
        "/prompt",
        "/payload/prompt",
    ]
}

/// Where the model may stand.
pub open spec fn model_paths() -> Seq<&'static str> {
    seq![
        "/model",
        "/payload/model",
    ]
}

fn model_places() -> (r: Vec<&'static str>)
    ensures
        r@ == model_paths(),
{
    vec![
        "/model",
        "/payload/model",
    ]
}

/// Where the source of a session may stand.
pub open spec fn session_source_paths() -> Seq<&'static str> {
    seq![
        "/payload/source",
        "/source",
    ]
}

fn session_source_places() -> (r: Vec<&'static str>)
    ensures
        r@ == session_source_paths(),
{
    vec![
        "/payload/source",
        "/source",
    ]
}

/// Where the project in stored metadata may stand.
pub open spec fn meta_project_paths() -> Seq<&'static str> {
    seq![
        "/project",
        "/project_name",
        "/name",
        "/slug",
        "/id",
    ]
}

fn meta_project_places() -> (r: Vec<&'static str>)
    ensures
        r@ == meta_project_paths(),
{
    vec![
        "/project",
        "/project_name",
        "/name",
        "/slug",
        "/id",
    ]
}

/// Where the name of the repository in stored metadata may stand.
pub open spec fn meta_repo_paths() -> Seq<&'static str> {
    seq![
        "/repo_name",
        "/repo",
        "/project",
        "/name",
        "/slug",
    ]
}

fn meta_repo_places() -> (r: Vec<&'static str>)
    ensures
        r@ == meta_repo_paths(),
{
    vec![
        "/repo_name",
        "/repo",
        "/project",
        "/name",
        "/slug",
    ]
}

// ---------------------------------------------------------------------------
// Names
// ---------------------------------------------------------------------------

/// The name by which a provider goes.
pub open spec fn provider_of(name: Option<Seq<char>>, assistant: Seq<char>) -> Seq<char> {
    let low = scan::lowered(text::trimmed(labels::or_text(name, "unknown"@)));
    if low == assistant + "-code"@ || low == assistant {
        assistant
    } else if low == "codex"@ {
        "codex"@
    } else if low.len() > 0 {
        low
    } else {
        "unknown"@
    }
}

fn normalize_provider(name: Option<String>, assistant: &str) -> (r: String)
    ensures
        r@ == provider_of(text::opt_text(name), assistant@),
{
    let name = text_or(name, "unknown");
    let low = lower(trim(name.as_str()));
    let coder = cat2(assistant, "-code");
    if same(low.as_str(), coder.as_str()) || same(low.as_str(), assistant) {
        assistant.to_owned()
    } else if same(low.as_str(), "codex") {
        "codex".to_owned()
    } else if !low.as_str().is_empty() {
        low
    } else {
        "unknown".to_owned()
    }
}

/// The name of a hook event with its words joined by dashes, in lower case.
pub open spec fn dashed(name: Seq<char>) -> Seq<char> {
    scan::lowered(scan::replaced(scan::replaced(text::trimmed(name), "_"@, "-"@), "."@, "-"@))
}

/// The phase of a session that a hook event stands for.
pub open spec fn phase_of(name: Seq<char>) -> Option<Seq<char>> {
    let word = dashed(name);
    if word == "sessionstart"@ || word == "session-start"@ || word == "started"@ {
        Some("started"@)
    } else if word == "pretooluse"@ || word == "pre-tool-use"@ {
        Some("pre-tool-use"@)
    } else if word == "posttooluse"@ || word == "post-tool-use"@ {
        Some("post-tool-use"@)
    } else if word == "userpromptsubmit"@ || word == "user-prompt-submit"@ {
        Some("user-prompt-submit"@)
    } else if word == "sessionend"@ || word == "session-end"@ || word == "finished"@ || word
        == "stop"@ {
        Some("finished"@)
    } else {
        None
    }
}

/// The phase of a session that a hook event stands for, where it stands for one.
pub fn map_common_event(name: &str) -> (r: Option<&'static str>)
    ensures
        text::opt_str(r) == phase_of(name@),
{
    proof {
        reveal_strlit("_");
        reveal_strlit(".");
    }
    let word = lower(replace(replace(trim(name), "_", "-").as_str(), ".", "-").as_str());
    let word = word.as_str();
    if same(word, "sessionstart") || same(word, "session-start") || same(word, "started") {
        Some("started")
    } else if same(word, "pretooluse") || same(word, "pre-tool-use") {
        Some("pre-tool-use")
    } else if same(word, "posttooluse") || same(word, "post-tool-use") {
        Some("post-tool-use")
    } else if same(word, "userpromptsubmit") || same(word, "user-prompt-submit") {
        Some("user-prompt-submit")
    } else if same(word, "sessionend") || same(word, "session-end") || same(word, "finished")
        || same(word, "stop") {
        Some("finished")
    } else {
        None
    }
}

/// The name of the file that an optional path leads to.
pub open spec fn name_at(path: Option<Seq<char>>) -> Option<Seq<char>> {
    match path {
        Some(p) => paths::file_name(p),
        None => None,
    }
}

fn name_of(path: &Option<String>) -> (r: Option<String>)
    ensures
        text::opt_text(r) == name_at(text::opt_text(*path)),
{
    match path {
        Some(p) => file_name_of(p.as_str()),
        None => None,
    }
}

// ---------------------------------------------------------------------------
// Additions to a payload
// ---------------------------------------------------------------------------

/// A value with the members of another added: a member that is there stays,
/// and an object gains what the other object has more.
pub open spec fn merged(target: Node, source: Node) -> Node
    decreases source,
{
    match source {
        Node::Object(s) => match target {
            Node::Object(t) => Node::Object(merged_members(t, s)),
            _ => target,
        },
        _ => target,
    }
}

/// The members of an object with further ones added.
pub open spec fn merged_members(t: Seq<(Seq<char>, Node)>, s: Seq<(Seq<char>, Node)>) -> Seq<
    (Seq<char>, Node),
>
    decreases s,
{
    if s.len() == 0 {
        t
    } else {
        let so_far = merged_members(t, s.drop_last());
        let key = s.last().0;
        let value = s.last().1;
        match table::lookup(so_far, key) {
            Some(existing) => if existing is Object && value is Object {
                table::put(so_far, key, merged(existing, value))
            } else {
                so_far
            },
            None => table::put(so_far, key, value),
        }
    }
}

fn merge_object_additive(target: &mut Json, source: &Json)
    ensures
        final(target)@ == merged(old(target)@, source@),
    decreases source,
{
    match source {
        Json::Object(entries) => {
            if !target.is_object() {
                return ;
            }
            let ghost t = old(target)@->Object_0;
            let ghost s = json::members(entries@);
            let mut i: usize = 0;
            while i < entries.len()
                invariant
                    i <= entries.len(),
                    source matches Json::Object(v) && v == entries,
                    s == json::members(entries@),
                    target@ == Node::Object(merged_members(t, s.take(i as int))),
                decreases entries.len() - i,
            {
                let key = entries[i].0.as_str();
                let value = &entries[i].1;
                assert(decreases_to!(source => entries@[i as int].1));
                assert(s.take(i + 1).drop_last() =~= s.take(i as int));
                assert(s.take(i + 1).last() == (key@, value@));
                let found = match target.get(key) {
                    Some(existing) => {
                        if existing.is_object() && value.is_object() {
                            let mut inner = existing.clone();
                            merge_object_additive(&mut inner, value);
                            Some(inner)
                        } else {
                            None
                        }
                    },
                    None => Some(value.clone()),
                };
                match found {
                    Some(new) => target.insert(key, new),
                    None => {},
                }
                i = i + 1;
            }
            assert(s.take(i as int) =~= s);
        },
        _ => {},
    }
}

/// The fields of a hook event that an augmentation may not touch.
pub open spec fn is_reserved(key: Seq<char>) -> bool {
    ||| key == "provider"@
    ||| key == "source"@
    ||| key == "tool"@
    ||| key == "agent_name"@
    ||| key == "event_name"@
    ||| key == "normalized_event"@
    ||| key == "directory"@
    ||| key == "repo_path"@
    ||| key == "worktree_path"@
    ||| key == "repo_name"@
    ||| key == "project"@
    ||| key == "project_identity"@
    ||| key == "session_id"@
    ||| key == "turn_id"@
    ||| key == "tool_name"@
    ||| key == "command"@
    ||| key == "prompt"@
    ||| key == "model"@
    ||| key == "event_payload"@
    ||| key == "payload"@
    ||| key == "status"@
}

fn is_reserved_augmentation_key(key: &str) -> (r: bool)
    ensures
        r == is_reserved(key@),
{
    same(key, "provider") || same(key, "source") || same(key, "tool") || same(key, "agent_name") || same(key, "event_name") || same(key, "normalized_event") || same(key, "directory") || same(key, "repo_path") || same(key, "worktree_path") || same(key, "repo_name") || same(key, "project") || same(key, "project_identity") || same(key, "session_id") || same(key, "turn_id") || same(key, "tool_name") || same(key, "command") || same(key, "prompt") || same(key, "model") || same(key, "event_payload") || same(key, "payload") || same(key, "status")
}

/// An object with the members of an augmentation added, reserved ones left out.
pub open spec fn augmented_members(t: Seq<(Seq<char>, Node)>, s: Seq<(Seq<char>, Node)>) -> Seq<
    (Seq<char>, Node),
>
    decreases s.len(),
{
    if s.len() == 0 {
        t
    } else {
        let so_far = augmented_members(t, s.drop_last());
        let key = s.last().0;
        let value = s.last().1;
        if is_reserved(key) {
            so_far
        } else {
            match table::lookup(so_far, key) {
                Some(existing) => if existing is Object && value is Object {
                    table::put(so_far, key, merged(existing, value))
                } else {
                    so_far
                },
                None => table::put(so_far, key, value),
            }
        }
    }
}

/// A payload with an augmentation added.
pub open spec fn augmented(target: Node, augmentation: Option<Node>) -> Node {
    match augmentation {
        Some(Node::Object(s)) => match target {
            Node::Object(t) => Node::Object(augmented_members(t, s)),
            _ => target,
        },
        _ => target,
    }
}

fn apply_augmentation(target: &mut Json, augmentation: Option<&Json>)
    requires
        old(target)@ is Object,
    ensures
        final(target)@ == augmented(old(target)@, json::opt_node(augmentation)),
{
    match augmentation {
        Some(Json::Object(entries)) => {
            let ghost t = old(target)@->Object_0;
            let ghost s = json::members(entries@);
            let mut i: usize = 0;
            while i < entries.len()
                invariant
                    i <= entries.len(),
                    s == json::members(entries@),
                    target@ == Node::Object(augmented_members(t, s.take(i as int))),
                decreases entries.len() - i,
            {
                let key = entries[i].0.as_str();
                let value = &entries[i].1;
                assert(s.take(i + 1).drop_last() =~= s.take(i as int));
                assert(s.take(i + 1).last() == (key@, value@));
                if !is_reserved_augmentation_key(key) {
                    let found = match target.get(key) {
                        Some(existing) => {
                            if existing.is_object() && value.is_object() {
                                let mut inner = existing.clone();
                                merge_object_additive(&mut inner, value);
                                Some(inner)
                            } else {
                                None
                            }
                        },
                        None => Some(value.clone()),
                    };
                    match found {
                        Some(new) => target.insert(key, new),
                        None => {},
                    }
                }
                i = i + 1;
            }
            assert(s.take(i as int) =~= s);
        },
        _ => {},
    }
}

/// An augmentation overrides nothing: a reserved field is left as it was, there
/// or missing, and so is every field that holds no object.
pub proof fn law_augmentation_overrides_nothing(
    target: Node,
    augmentation: Option<Node>,
    key: Seq<char>,
)
    ensures
        is_reserved(key) ==> json::member(augmented(target, augmentation), key) == json::member(
            target,
            key,
        ),
        json::member(target, key) matches Some(v) && !(v is Object) ==> json::member(
            augmented(target, augmentation),
            key,
        ) == json::member(target, key),
{
    match augmentation {
        Some(Node::Object(s)) => match target {
            Node::Object(t) => lemma_augmented_lookup(t, s, key),
            _ => {},
        },
        _ => {},
    }
}

proof fn lemma_augmented_lookup(
    t: Seq<(Seq<char>, Node)>,
    s: Seq<(Seq<char>, Node)>,
    key: Seq<char>,
)
    ensures
        is_reserved(key) ==> table::lookup(augmented_members(t, s), key) == table::lookup(t, key),
        table::lookup(t, key) matches Some(v) && !(v is Object) ==> table::lookup(
            augmented_members(t, s),
            key,
        ) == table::lookup(t, key),
    decreases s.len(),
{
    if s.len() > 0 {
        lemma_augmented_lookup(t, s.drop_last(), key);
        let so_far = augmented_members(t, s.drop_last());
        let k = s.last().0;
        let value = s.last().1;
        table::law_put_then_lookup(so_far, k, value, key);
        match table::lookup(so_far, k) {
            Some(existing) => table::law_put_then_lookup(
                so_far,
                k,
                merged(existing, value),
                key,
            ),
            None => {},
        }
    }
}

/// What an object holds in a field that is no object, it keeps when another
/// value is merged into it.
pub proof fn law_merge_keeps_fields(target: Node, source: Node, key: Seq<char>)
    ensures
        json::member(target, key) matches Some(v) && !(v is Object) ==> json::member(
            merged(target, source),
            key,
        ) == json::member(target, key),
{
    match source {
        Node::Object(s) => match target {
            Node::Object(t) => lemma_merged_lookup(t, s, key),
            _ => {},
        },
        _ => {},
    }
}

proof fn lemma_merged_lookup(t: Seq<(Seq<char>, Node)>, s: Seq<(Seq<char>, Node)>, key: Seq<char>)
    ensures
        table::lookup(t, key) matches Some(v) && !(v is Object) ==> table::lookup(
            merged_members(t, s),
            key,
        ) == table::lookup(t, key),
    decreases s.len(),
{
    if s.len() > 0 {
        lemma_merged_lookup(t, s.drop_last(), key);
        let so_far = merged_members(t, s.drop_last());
        let k = s.last().0;
        let value = s.last().1;
        table::law_put_then_lookup(so_far, k, value, key);
        match table::lookup(so_far, k) {
            Some(existing) => table::law_put_then_lookup(
                so_far,
                k,
                merged(existing, value),
                key,
            ),
            None => {},
        }
    }
}

// ---------------------------------------------------------------------------
// Stored metadata
// ---------------------------------------------------------------------------

/// What the metadata file of a directory leads to.
pub enum MetadataStep {
    /// The file holds the metadata.
    Found(Json),
    /// The file cannot be used, and no other is looked for.
    Stop,
    /// The search goes on in the directory above.
    Up,
}

/// What the metadata file of a directory leads to, as trees.
pub enum MetadataStepView {
    Found(Node),
    Stop,
    Up,
}

impl View for MetadataStep {
    type V = MetadataStepView;

    open spec fn view(&self) -> MetadataStepView {
        match self {
            MetadataStep::Found(j) => MetadataStepView::Found(j@),
            MetadataStep::Stop => MetadataStepView::Stop,
            MetadataStep::Up => MetadataStepView::Up,
        }
    }
}

/// What the metadata file of a directory leads to, given what it is read as.
pub open spec fn metadata_step(content: Result<Node, Seq<char>>) -> MetadataStepView {
    match content {
        Ok(node) => if node is Object {
            MetadataStepView::Found(node)
        } else {
            MetadataStepView::Up
        },
        Err(_) => MetadataStepView::Stop,
    }
}

/// What the metadata file of a directory leads to, given what it is read as.
pub fn judge_metadata(content: Result<Json, String>) -> (r: MetadataStep)
    ensures
        r@ == metadata_step(crate::codec::json_result(content)),
{
    match content {
        Ok(json) => {
            if json.is_object() {
                MetadataStep::Found(json)
            } else {
                MetadataStep::Up
            }
        },
        Err(_) => MetadataStep::Stop,
    }
}

// ---------------------------------------------------------------------------
// The event
// ---------------------------------------------------------------------------

/// What a hook tells of itself.
pub struct HookFacts {
    pub provider: Seq<char>,
    pub event_name: Seq<char>,
    pub phase: Seq<char>,
    pub directory: Option<Seq<char>>,
    pub repo_path: Option<Seq<char>>,
    pub worktree_path: Option<Seq<char>>,
    pub metadata: Option<Node>,
    pub project: Option<Seq<char>>,
    pub repo_name: Option<Seq<char>>,
    pub session_id: Option<Seq<char>>,
    pub turn_id: Option<Seq<char>>,
    pub tool_name: Option<Seq<char>>,
    pub command: Option<Seq<char>>,
    pub prompt: Option<Seq<char>>,
    pub model: Option<Seq<char>>,
    pub session_source: Option<Seq<char>>,
}

/// The directory that a hook ran in.
pub open spec fn hook_directory(payload: Node) -> Option<Seq<char>> {
    first_at(payload, directory_paths())
}

/// The metadata of the project: what the hook sent, or else what is stored.
pub open spec fn hook_metadata(payload: Node, stored: Option<Node>) -> Option<Node> {
    text::or_else(
        json::member(payload, "project_identity"@),
        text::or_else(json::member(payload, "project_metadata"@), stored),
    )
}

/// A text in optional metadata.
pub open spec fn in_metadata(metadata: Option<Node>, places: Seq<&'static str>) -> Option<Seq<char>> {
    match metadata {
        Some(node) => first_at(node, places),
        None => None,
    }
}

/// A text unless it is a given one.
pub open spec fn other_than(o: Option<Seq<char>>, avoid: Seq<char>) -> Option<Seq<char>> {
    match o {
        Some(s) => if s == avoid {
            None
        } else {
            Some(s)
        },
        None => None,
    }
}

/// What a hook tells of itself, with what is stored about the project.
pub open spec fn hook_facts(
    payload: Node,
    stored: Option<Node>,
    event_name: Seq<char>,
    phase: Seq<char>,
    assistant: Seq<char>,
) -> HookFacts {
    let provider = provider_of(first_at(payload, provider_paths()), assistant);
    let directory = hook_directory(payload);
    let repo_path = text::or_else(first_at(payload, repo_path_paths()), directory);
    let worktree_path = text::or_else(first_at(payload, worktree_path_paths()), directory);
    let metadata = hook_metadata(payload, stored);
    let project = text::or_else(
        first_at(payload, project_paths()),
        text::or_else(
            in_metadata(metadata, meta_project_paths()),
            text::or_else(name_at(repo_path), name_at(worktree_path)),
        ),
    );
    let repo_name = text::or_else(
        first_at(payload, repo_name_paths()),
        text::or_else(in_metadata(metadata, meta_repo_paths()), project),
    );
    HookFacts {
        provider,
        event_name,
        phase,
        directory,
        repo_path,
        worktree_path,
        metadata,
        project,
        repo_name,
        session_id: first_at(payload, session_id_paths()),
        turn_id: first_at(payload, turn_id_paths()),
        tool_name: first_at(payload, tool_name_paths()),
        command: first_at(payload, command_paths()),
        prompt: first_at(payload, prompt_paths()),
        model: first_at(payload, model_paths()),
        session_source: other_than(first_at(payload, session_source_paths()), provider),
    }
}

/// What the hook was given by the tool.
pub open spec fn inner_payload(payload: Node) -> Node {
    match text::or_else(
        json::member(payload, "event_payload"@),
        json::member(payload, "payload"@),
    ) {
        Some(node) => node,
        None => json::empty(),
    }
}

/// The context of a hook event.
pub open spec fn hook_context(f: HookFacts) -> Node {
    json::empty().with_text("provider"@, f.provider).with_text(
        "event_name"@,
        f.event_name,
    ).with_text("normalized_event"@, f.phase).with_opt_text(
        "directory"@,
        f.directory,
    ).with_opt_text("repo_path"@, f.repo_path).with_opt_text(
        "worktree_path"@,
        f.worktree_path,
    ).with_opt_text("repo_name"@, f.repo_name).with_opt_text("project"@, f.project).with_opt(
        "project_identity"@,
        f.metadata,
    ).with_opt_text("session_id"@, f.session_id).with_opt_text(
        "turn_id"@,
        f.turn_id,
    ).with_opt_text("model"@, f.model).with_opt_text("tool_name"@, f.tool_name).with_opt_text(
        "command"@,
        f.command,
    ).with_opt_text("prompt"@, f.prompt).with_opt_text("session_source"@, f.session_source)
}

/// The payload of a hook event before any augmentation.
pub open spec fn hook_payload(f: HookFacts, payload: Node) -> Node {
    json::empty().with_text("provider"@, f.provider).with_text(
        "source"@,
        f.provider,
    ).with_text("tool"@, f.provider).with_text("agent_name"@, f.provider).with_text(
        "event_name"@,
        f.event_name,
    ).with_text("normalized_event"@, f.phase).with("context"@, hook_context(f)).with(
        "event_payload"@,
        inner_payload(payload),
    ).with("payload"@, payload).with_opt_text("directory"@, f.directory).with_opt_text(
        "repo_path"@,
        f.repo_path,
    ).with_opt_text("worktree_path"@, f.worktree_path).with_opt_text(
        "repo_name"@,
        f.repo_name,
    ).with_opt_text("project"@, f.project).with_opt_text("session_id"@, f.session_id).with_opt_text(
        "turn_id"@,
        f.turn_id,
    ).with_opt_text("tool_name"@, f.tool_name).with_opt_text("command"@, f.command).with_opt_text(
        "prompt"@,
        f.prompt,
    ).with_opt_text("model"@, f.model).with_opt_text(
        "session_source"@,
        f.session_source,
    ).with_opt("project_identity"@, f.metadata).with_text("status"@, f.phase)
}

/// What augments the message of a hook.
pub open spec fn augmentation_of(payload: Node) -> Option<Node> {
    text::or_else(json::member(payload, "augmentation"@), json::member(payload, "augment"@))
}

/// The event that a hook sends.
pub open spec fn hook_event(payload: Node, stored: Option<Node>, assistant: Seq<char>) -> Result<
    EventView,
    Seq<char>,
> {
    match first_at(payload, event_name_paths()) {
        None => Err("missing native hook event name"@),
        Some(name) => match phase_of(name) {
            None => Err("unsupported native hook event '"@ + name + "'"@),
            Some(phase) => Ok(
                events::plain_event(
                    "session."@ + phase,
                    None,
                    augmented(
                        hook_payload(hook_facts(payload, stored, name, phase, assistant), payload),
                        augmentation_of(payload),
                    ),
                ),
            ),
        },
    }
}

/// An event or an error, in characters.
pub open spec fn event_result(r: Result<IncomingEvent, String>) -> Result<EventView, Seq<char>> {
    match r {
        Ok(event) => Ok(event@),
        Err(e) => Err(e@),
    }
}

/// The directory that a hook ran in: where the search for stored metadata starts.
pub fn native_hook_directory(payload: &Json) -> (r: Option<String>)
    ensures
        text::opt_text(r) == hook_directory(payload@),
{
    first_string(payload, directory_places())
}

fn first_in_metadata(metadata: Option<&Json>, places: Vec<&'static str>) -> (r: Option<String>)
    ensures
        text::opt_text(r) == in_metadata(json::opt_node(metadata), places@),
{
    match metadata {
        Some(node) => first_string(node, places),
        None => None,
    }
}

/// The event that a hook sends. `stored` is the metadata that is stored for the
/// directory the hook ran in, `assistant` the name of the assistant that is also known
/// with `-code` behind its name.
pub fn incoming_event_from_native_hook_json(
    payload: &Json,
    stored: Option<&Json>,
    assistant: &str,
) -> (r: Result<IncomingEvent, String>)
    ensures
        event_result(r) == hook_event(payload@, json::opt_node(stored), assistant@),
{
    let provider = normalize_provider(first_string(payload, provider_places()), assistant);
    let event_name = match first_string(payload, event_name_places()) {
        Some(s) => s,
        None => return Err("missing native hook event name".to_owned()),
    };
    let phase = match map_common_event(event_name.as_str()) {
        Some(s) => s,
        None => return Err(cat3("unsupported native hook event '", event_name.as_str(), "'")),
    };
    let directory = native_hook_directory(payload);
    let repo_path = first_of(
        first_string(payload, repo_path_places()),
        copy_opt(&directory),
    );
    let worktree_path = first_of(
        first_string(payload, worktree_path_places()),
        copy_opt(&directory),
    );
    let metadata = match payload.get("project_identity") {
        Some(node) => Some(node),
        None => match payload.get("project_metadata") {
            Some(node) => Some(node),
            None => stored,
        },
    };
    let project = first_of(
        first_string(payload, project_places()),
        first_of(
            first_in_metadata(metadata, meta_project_places()),
            first_of(name_of(&repo_path), name_of(&worktree_path)),
        ),
    );
    let repo_name = first_of(
        first_string(payload, repo_name_places()),
        first_of(first_in_metadata(metadata, meta_repo_places()), copy_opt(&project)),
    );
    let session_id = first_string(payload, session_id_places());
    let turn_id = first_string(payload, turn_id_places());
    let tool_name = first_string(payload, tool_name_places());
    let command = first_string(payload, command_places());
    let prompt = first_string(payload, prompt_places());
    let model = first_string(payload, model_places());
    let session_source = match first_string(payload, session_source_places()) {
        Some(s) => {
            if same(s.as_str(), provider.as_str()) {
                None
            } else {
                Some(s)
            }
        },
        None => None,
    };
    let event_payload = match payload.get("event_payload") {
        Some(node) => node.clone(),
        None => match payload.get("payload") {
            Some(node) => node.clone(),
            None => Json::object(),
        },
    };
    let ghost facts = hook_facts(
        payload@,
        json::opt_node(stored),
        event_name@,
        phase@,
        assistant@,
    );
    let context = Json::object().with_text("provider", provider.as_str()).with_text(
        "event_name",
        event_name.as_str(),
    ).with_text("normalized_event", phase).with_opt_text("directory", &directory).with_opt_text(
        "repo_path",
        &repo_path,
    ).with_opt_text("worktree_path", &worktree_path).with_opt_text(
        "repo_name",
        &repo_name,
    ).with_opt_text("project", &project).with_opt("project_identity", metadata).with_opt_text(
        "session_id",
        &session_id,
    ).with_opt_text("turn_id", &turn_id).with_opt_text("model", &model).with_opt_text(
        "tool_name",
        &tool_name,
    ).with_opt_text("command", &command).with_opt_text("prompt", &prompt).with_opt_text(
        "session_source",
        &session_source,
    );
    assert(context@ == hook_context(facts));
    let mut normalized = Json::object().with_text("provider", provider.as_str()).with_text(
        "source",
        provider.as_str(),
    ).with_text("tool", provider.as_str()).with_text("agent_name", provider.as_str()).with_text(
        "event_name",
        event_name.as_str(),
    ).with_text("normalized_event", phase).with("context", context).with(
        "event_payload",
        event_payload,
    ).with("payload", payload.clone()).with_opt_text("directory", &directory).with_opt_text(
        "repo_path",
        &repo_path,
    ).with_opt_text("worktree_path", &worktree_path).with_opt_text(
        "repo_name",
        &repo_name,
    ).with_opt_text("project", &project).with_opt_text("session_id", &session_id).with_opt_text(
        "turn_id",
        &turn_id,
    ).with_opt_text("tool_name", &tool_name).with_opt_text("command", &command).with_opt_text(
        "prompt",
        &prompt,
    ).with_opt_text("model", &model).with_opt_text(
        "session_source",
        &session_source,
    ).with_opt("project_identity", metadata).with_text("status", phase);
    assert(normalized@ == hook_payload(facts, payload@));
    let augmentation = match payload.get("augmentation") {
        Some(node) => Some(node),
        None => payload.get("augment"),
    };
    apply_augmentation(&mut normalized, augmentation);
    Ok(
        IncomingEvent {
            kind: cat2("session.", phase),
            channel: None,
            mention: None,
            format: None,
            template: None,
            payload: normalized,
        },
    )
}

// ---------------------------------------------------------------------------
// Laws
// ---------------------------------------------------------------------------

/// Two objects that have the same members but for those of two keys.
pub open spec fn differ_only_at(p: Node, q: Node, one: Seq<char>, other: Seq<char>) -> bool {
    &&& p is Object
    &&& q is Object
    &&& forall|key: Seq<char>|
        key != one && key != other ==> #[trigger] json::member(p, key) == json::member(q, key)
}

/// Two messages of hooks that are the same but for what augments them.
pub open spec fn same_but_augmentation(p: Node, q: Node) -> bool {
    differ_only_at(p, q, "augmentation"@, "augment"@)
}

/// A path whose first key is not empty and does not begin with `a`.
spec fn leads_elsewhere(path: Seq<char>) -> bool {
    path.len() >= 2 && path[0] == '/' && path[1] != '/' && path[1] != 'a'
}

proof fn lemma_first_key(path: Seq<char>)
    requires
        leads_elsewhere(path),
    ensures
        scan::split(path, '/').len() >= 2,
        scan::split(path, '/')[1].len() > 0,
        scan::split(path, '/')[1][0] == path[1],
    decreases path.len(),
{
    let front = path.drop_last();
    if path.len() == 2 {
        assert(front.drop_last() =~= Seq::empty());
        reveal_with_fuel(scan::split, 3);
    } else {
        lemma_first_key(front);
    }
}

proof fn lemma_same_field(p: Node, q: Node, path: Seq<char>)
    requires
        same_but_augmentation(p, q),
        leads_elsewhere(path),
    ensures
        json::field_at(p, path) == json::field_at(q, path),
{
    lemma_first_key(path);
    reveal_strlit("augmentation");
    reveal_strlit("augment");
    let keys = scan::split(path, '/').skip(1);
    assert(keys[0][0] == path[1]);
    assert(json::member(p, keys[0]) == json::member(q, keys[0]));
}

proof fn lemma_same_first(p: Node, q: Node, places: Seq<&'static str>)
    requires
        same_but_augmentation(p, q),
        forall|i: int| 0 <= i < places.len() ==> leads_elsewhere((#[trigger] places[i])@),
    ensures
        first_at(p, places) == first_at(q, places),
    decreases places.len(),
{
    if places.len() > 0 {
        assert(leads_elsewhere(places[0]@));
        lemma_same_field(p, q, places[0]@);
        let rest = places.drop_first();
        assert forall|i: int| 0 <= i < rest.len() implies leads_elsewhere(
            (#[trigger] rest[i])@,
        ) by {
            assert(leads_elsewhere(places[i + 1]@));
        }
        lemma_same_first(p, q, rest);
    }
}

/// What a hook tells of itself stands in no augmentation.
proof fn lemma_same_facts(p: Node, q: Node, stored: Option<Node>, assistant: Seq<char>)
    requires
        same_but_augmentation(p, q),
    ensures
        first_at(p, event_name_paths()) == first_at(q, event_name_paths()),
        inner_payload(p) == inner_payload(q),
        forall|name: Seq<char>, phase: Seq<char>| #[trigger]
            hook_facts(p, stored, name, phase, assistant) == hook_facts(
                q,
                stored,
                name,
                phase,
                assistant,
            ),
{
    assert(first_at(p, provider_paths()) == first_at(q, provider_paths())) by {
        reveal_strlit("/provider");
        reveal_strlit("/source/provider");
        reveal_strlit("/context/provider");
        reveal_strlit("/payload/provider");
        lemma_same_first(p, q, provider_paths());
    }
    assert(first_at(p, event_name_paths()) == first_at(q, event_name_paths())) by {
        reveal_strlit("/event_name");
        reveal_strlit("/event");
        reveal_strlit("/hook_event_name");
        reveal_strlit("/hookEventName");
        reveal_strlit("/payload/hook_event_name");
        reveal_strlit("/payload/hookEventName");
        lemma_same_first(p, q, event_name_paths());
    }
    assert(first_at(p, directory_paths()) == first_at(q, directory_paths())) by {
        reveal_strlit("/directory");
        reveal_strlit("/cwd");
        reveal_strlit("/context/directory");
        reveal_strlit("/context/cwd");
        reveal_strlit("/payload/cwd");
        reveal_strlit("/payload/directory");
        reveal_strlit("/repo_path");
        reveal_strlit("/projectPath");
        reveal_strlit("/context/projectPath");
        lemma_same_first(p, q, directory_paths());
    }
    assert(first_at(p, repo_path_paths()) == first_at(q, repo_path_paths())) by {
        reveal_strlit("/repo_path");
        reveal_strlit("/context/repo_path");
        reveal_strlit("/payload/repo_path");
        reveal_strlit("/git/repo_path");
        lemma_same_first(p, q, repo_path_paths());
    }
    assert(first_at(p, worktree_path_paths()) == first_at(q, worktree_path_paths())) by {
        reveal_strlit("/worktree_path");
        reveal_strlit("/context/worktree_path");
        reveal_strlit("/payload/worktree_path");
        reveal_strlit("/payload/cwd");
        lemma_same_first(p, q, worktree_path_paths());
    }
    assert(first_at(p, project_paths()) == first_at(q, project_paths())) by {
        reveal_strlit("/project");
        reveal_strlit("/project_name");
        reveal_strlit("/projectName");
        reveal_strlit("/context/project");
        reveal_strlit("/context/project_name");
        reveal_strlit("/context/projectName");
        reveal_strlit("/payload/project");
        reveal_strlit("/payload/project_name");
        lemma_same_first(p, q, project_paths());
    }
    assert(first_at(p, repo_name_paths()) == first_at(q, repo_name_paths())) by {
        reveal_strlit("/repo_name");
        reveal_strlit("/context/repo_name");
        reveal_strlit("/payload/repo_name");
        lemma_same_first(p, q, repo_name_paths());
    }
    assert(first_at(p, session_id_paths()) == first_at(q, session_id_paths())) by {
        reveal_strlit("/session_id");
        reveal_strlit("/sessionId");
        reveal_strlit("/payload/session_id");
        reveal_strlit("/payload/sessionId");
        reveal_strlit("/context/session_id");
        reveal_strlit("/context/sessionId");
        lemma_same_first(p, q, session_id_paths());
    }
    assert(first_at(p, turn_id_paths()) == first_at(q, turn_id_paths())) by {
        reveal_strlit("/turn_id");
        reveal_strlit("/turnId");
        reveal_strlit("/payload/turn_id");
        reveal_strlit("/payload/turnId");
        lemma_same_first(p, q, turn_id_paths());
    }
    assert(first_at(p, tool_name_paths()) == first_at(q, tool_name_paths())) by {
        reveal_strlit("/tool_name");
        reveal_strlit("/toolName");
        reveal_strlit("/payload/tool_name");
        reveal_strlit("/payload/toolName");
        lemma_same_first(p, q, tool_name_paths());
    }
    assert(first_at(p, command_paths()) == first_at(q, command_paths())) by {
        reveal_strlit("/command");
        reveal_strlit("/tool_input/command");
        reveal_strlit("/payload/tool_input/command");
        reveal_strlit("/payload/command");
        lemma_same_first(p, q, command_paths());
    }
    assert(first_at(p, prompt_paths()) == first_at(q, prompt_paths())) by {
        reveal_strlit("/prompt");
        reveal_strlit("/payload/prompt");
        lemma_same_first(p, q, prompt_paths());
    }
    assert(first_at(p, model_paths()) == first_at(q, model_paths())) by {
        reveal_strlit("/model");
        reveal_strlit("/payload/model");
        lemma_same_first(p, q, model_paths());
    }
    assert(first_at(p, session_source_paths()) == first_at(q, session_source_paths())) by {
        reveal_strlit("/payload/source");
        reveal_strlit("/source");
        lemma_same_first(p, q, session_source_paths());
    }
    reveal_strlit("augmentation");
    reveal_strlit("augment");
    reveal_strlit("project_identity");
    reveal_strlit("project_metadata");
    reveal_strlit("event_payload");
    reveal_strlit("payload");
    assert("project_identity"@[0] == 'p' && "project_metadata"@[0] == 'p' && "event_payload"@[0]
        == 'e' && "payload"@[0] == 'p' && "augmentation"@[0] == 'a' && "augment"@[0] == 'a');
    assert(json::member(p, "project_identity"@) == json::member(q, "project_identity"@));
    assert(json::member(p, "project_metadata"@) == json::member(q, "project_metadata"@));
    assert(json::member(p, "event_payload"@) == json::member(q, "event_payload"@));
    assert(json::member(p, "payload"@) == json::member(q, "payload"@));
}

proof fn lemma_with_on_both(p: Node, q: Node, at: Seq<char>, key: Seq<char>, value: Node)
    requires
        differ_only_at(p, q, at, at),
    ensures
        differ_only_at(p.with(key, value), q.with(key, value), at, at),
{
    assert forall|other: Seq<char>| other != at implies #[trigger] json::member(
        p.with(key, value),
        other,
    ) == json::member(q.with(key, value), other) by {
        json::law_with_then_member(p, key, value, other);
        json::law_with_then_member(q, key, value, other);
        assert(json::member(p, other) == json::member(q, other));
    }
}

proof fn lemma_with_opt_on_both(
    p: Node,
    q: Node,
    at: Seq<char>,
    key: Seq<char>,
    value: Option<Seq<char>>,
)
    requires
        differ_only_at(p, q, at, at),
    ensures
        differ_only_at(p.with_opt_text(key, value), q.with_opt_text(key, value), at, at),
{
    match value {
        Some(s) => lemma_with_on_both(p, q, at, key, Node::Text(s)),
        None => {},
    }
}

proof fn lemma_same_payload(f: HookFacts, p: Node, q: Node)
    requires
        inner_payload(p) == inner_payload(q),
    ensures
        differ_only_at(hook_payload(f, p), hook_payload(f, q), "payload"@, "payload"@),
{
    let at = "payload"@;
    let start = json::empty().with_text("provider"@, f.provider).with_text(
        "source"@,
        f.provider,
    ).with_text("tool"@, f.provider).with_text("agent_name"@, f.provider).with_text(
        "event_name"@,
        f.event_name,
    ).with_text("normalized_event"@, f.phase).with("context"@, hook_context(f)).with(
        "event_payload"@,
        inner_payload(p),
    );
    let a0 = start.with(at, p);
    let b0 = start.with(at, q);
    assert forall|other: Seq<char>| other != at implies #[trigger] json::member(a0, other)
        == json::member(b0, other) by {
        json::law_with_then_member(start, at, p, other);
        json::law_with_then_member(start, at, q, other);
    }
    lemma_with_opt_on_both(a0, b0, at, "directory"@, f.directory);
    let a1 = a0.with_opt_text("directory"@, f.directory);
    let b1 = b0.with_opt_text("directory"@, f.directory);
    lemma_with_opt_on_both(a1, b1, at, "repo_path"@, f.repo_path);
    let a2 = a1.with_opt_text("repo_path"@, f.repo_path);
    let b2 = b1.with_opt_text("repo_path"@, f.repo_path);
    lemma_with_opt_on_both(a2, b2, at, "worktree_path"@, f.worktree_path);
    let a3 = a2.with_opt_text("worktree_path"@, f.worktree_path);
    let b3 = b2.with_opt_text("worktree_path"@, f.worktree_path);
    lemma_with_opt_on_both(a3, b3, at, "repo_name"@, f.repo_name);
    let a4 = a3.with_opt_text("repo_name"@, f.repo_name);
    let b4 = b3.with_opt_text("repo_name"@, f.repo_name);
    lemma_with_opt_on_both(a4, b4, at, "project"@, f.project);
    let a5 = a4.with_opt_text("project"@, f.project);
    let b5 = b4.with_opt_text("project"@, f.project);
    lemma_with_opt_on_both(a5, b5, at, "session_id"@, f.session_id);
    let a6 = a5.with_opt_text("session_id"@, f.session_id);
    let b6 = b5.with_opt_text("session_id"@, f.session_id);
    lemma_with_opt_on_both(a6, b6, at, "turn_id"@, f.turn_id);
    let a7 = a6.with_opt_text("turn_id"@, f.turn_id);
    let b7 = b6.with_opt_text("turn_id"@, f.turn_id);
    lemma_with_opt_on_both(a7, b7, at, "tool_name"@, f.tool_name);
    let a8 = a7.with_opt_text("tool_name"@, f.tool_name);
    let b8 = b7.with_opt_text("tool_name"@, f.tool_name);
    lemma_with_opt_on_both(a8, b8, at, "command"@, f.command);
    let a9 = a8.with_opt_text("command"@, f.command);
    let b9 = b8.with_opt_text("command"@, f.command);
    lemma_with_opt_on_both(a9, b9, at, "prompt"@, f.prompt);
    let a10 = a9.with_opt_text("prompt"@, f.prompt);
    let b10 = b9.with_opt_text("prompt"@, f.prompt);
    lemma_with_opt_on_both(a10, b10, at, "model"@, f.model);
    let a11 = a10.with_opt_text("model"@, f.model);
    let b11 = b10.with_opt_text("model"@, f.model);
    lemma_with_opt_on_both(a11, b11, at, "session_source"@, f.session_source);
    let a12 = a11.with_opt_text("session_source"@, f.session_source);
    let b12 = b11.with_opt_text("session_source"@, f.session_source);
    match f.metadata {
        Some(node) => lemma_with_on_both(a12, b12, at, "project_identity"@, node),
        None => {},
    }
    let a13 = a12.with_opt("project_identity"@, f.metadata);
    let b13 = b12.with_opt("project_identity"@, f.metadata);
    lemma_with_on_both(a13, b13, at, "status"@, Node::Text(f.phase));
}

proof fn lemma_augmented_inner(
    t: Seq<(Seq<char>, Node)>,
    s: Seq<(Seq<char>, Node)>,
    at: Seq<char>,
    key: Seq<char>,
    value: Node,
)
    requires
        table::lookup(t, at) matches Some(o) && json::member(o, key) == Some(value),
        !(value is Object),
    ensures
        table::lookup(augmented_members(t, s), at) matches Some(o) && json::member(o, key) == Some(
            value,
        ),
    decreases s.len(),
{
    if s.len() > 0 {
        lemma_augmented_inner(t, s.drop_last(), at, key, value);
        let so_far = augmented_members(t, s.drop_last());
        let k = s.last().0;
        let added = s.last().1;
        table::law_put_then_lookup(so_far, k, added, at);
        match table::lookup(so_far, k) {
            Some(existing) => {
                table::law_put_then_lookup(so_far, k, merged(existing, added), at);
                law_merge_keeps_fields(existing, added, key);
            },
            None => {},
        }
    }
}

/// An augmentation decides nothing: of two messages that are the same but for
/// what augments them, both are refused with the same error, or both give an event
/// of the same kind whose reserved fields, the message itself apart, are the same.
pub proof fn law_augmentation_decides_nothing(
    p: Node,
    q: Node,
    stored: Option<Node>,
    assistant: Seq<char>,
)
    requires
        same_but_augmentation(p, q),
    ensures
        match (hook_event(p, stored, assistant), hook_event(q, stored, assistant)) {
            (Ok(a), Ok(b)) => {
                &&& a.kind == b.kind
                &&& a.channel == b.channel
                &&& a.mention == b.mention
                &&& a.format == b.format
                &&& a.template == b.template
                &&& forall|key: Seq<char>|
                    is_reserved(key) && key != "payload"@ ==> #[trigger] json::member(
                        a.payload,
                        key,
                    ) == json::member(b.payload, key)
            },
            (Err(a), Err(b)) => a == b,
            _ => false,
        },
{
    lemma_same_facts(p, q, stored, assistant);
    match (hook_event(p, stored, assistant), hook_event(q, stored, assistant)) {
        (Ok(a), Ok(b)) => {
            let name = first_at(p, event_name_paths())->Some_0;
            let phase = phase_of(name)->Some_0;
            let f = hook_facts(p, stored, name, phase, assistant);
            assert(f == hook_facts(q, stored, name, phase, assistant));
            lemma_same_payload(f, p, q);
            assert forall|key: Seq<char>|
                is_reserved(key) && key != "payload"@ implies #[trigger] json::member(
                a.payload,
                key,
            ) == json::member(b.payload, key) by {
                law_augmentation_overrides_nothing(hook_payload(f, p), augmentation_of(p), key);
                law_augmentation_overrides_nothing(hook_payload(f, q), augmentation_of(q), key);
                assert(json::member(hook_payload(f, p), key) == json::member(
                    hook_payload(f, q),
                    key,
                ));
            }
        },
        _ => {},
    }
}

/// What stands at a key of an object and is no object itself still stands there.
pub open spec fn keeps_entry(before: Node, after: Option<Node>, key: Seq<char>) -> bool {
    match json::member(before, key) {
        Some(v) => v is Object || (after matches Some(grown) && json::member(grown, key) == Some(
            v,
        )),
        None => true,
    }
}

/// An augmentation takes nothing away: what the event of a message without one
/// holds in a field, or in an object such as its context, stays as it is in the
/// event of the same message with one, where it is no object that can grow.
pub proof fn law_augmentation_takes_nothing_away(
    bare: Node,
    p: Node,
    stored: Option<Node>,
    assistant: Seq<char>,
    at: Seq<char>,
    key: Seq<char>,
)
    requires
        same_but_augmentation(bare, p),
        augmentation_of(bare) is None,
        at != "payload"@,
    ensures
        match (hook_event(bare, stored, assistant), hook_event(p, stored, assistant)) {
            (Ok(a), Ok(b)) => match json::member(a.payload, at) {
                Some(o) => {
                    &&& !(o is Object) ==> json::member(b.payload, at) == Some(o)
                    &&& keeps_entry(o, json::member(b.payload, at), key)
                },
                None => true,
            },
            (Err(_), Err(_)) => true,
            _ => false,
        },
{
    lemma_same_facts(bare, p, stored, assistant);
    match (hook_event(bare, stored, assistant), hook_event(p, stored, assistant)) {
        (Ok(a), Ok(b)) => {
            let name = first_at(p, event_name_paths())->Some_0;
            let phase = phase_of(name)->Some_0;
            let f = hook_facts(p, stored, name, phase, assistant);
            assert(f == hook_facts(bare, stored, name, phase, assistant));
            lemma_same_payload(f, bare, p);
            let target = hook_payload(f, p);
            assert(a.payload == hook_payload(f, bare));
            assert(json::member(a.payload, at) == json::member(target, at));
            law_augmentation_overrides_nothing(target, augmentation_of(p), at);
            match (json::member(target, at), augmentation_of(p)) {
                (Some(o), Some(Node::Object(s))) => match json::member(o, key) {
                    Some(v) => if !(v is Object) {
                        lemma_augmented_inner(target->Object_0, s, at, key, v);
                    },
                    None => {},
                },
                _ => {},
            }
        },
        _ => {},
    }
}

} // verus!
