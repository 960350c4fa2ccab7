//! Installing the hooks of coding tools: which files, and what they hold.
use vstd::prelude::*;
use vstd::string::*;

use crate::codec;
use crate::codec::{parse_json, to_pretty_text};
use crate::compose::{cat2, cat3, cat4, cat7};
use crate::json;
use crate::json::{Json, Node};
use crate::labels;
use crate::labels::text_or;
use crate::paths;
use crate::paths::{file_name_of, join_path};
use crate::text;
use crate::text::{copy_opt, same, trim};

verus! {

broadcast use crate::json::group_trees;

pub const PROJECT_METADATA: &'static str = ".clawhip/project.json";

pub const HOOK_SCRIPT: &'static str = ".clawhip/hooks/native-hook.mjs";

pub const AUGMENT_SCRIPT: &'static str = ".clawhip/hooks/augment.mjs";

pub const CODEX_CONFIG: &'static str = ".codex/config.toml";

pub const CODEX_HOOKS: &'static str = ".codex/hooks.json";

/// A coding tool whose hooks are installed.
#[derive(Debug, Clone, Copy, PartialEq, Eq, Structural)]
pub enum NativeProvider {
    Codex,
    Claude,
    All,
}

/// Where hooks are installed.
#[derive(Debug, Clone, Copy, PartialEq, Eq, Structural)]
pub enum NativeInstallScope {
    Project,
    Global,
}

/// The files of an installation.
#[derive(Debug, PartialEq, Eq)]
pub struct InstallReport {
    pub scope: NativeInstallScope,
    pub root: String,
    pub hook_script: String,
    pub project_metadata: String,
    pub augment_script: String,
    pub claude_settings: Option<String>,
    pub codex_config: Option<String>,
    pub codex_hooks: Option<String>,
}

impl NativeProvider {
    /// Tells whether the hooks of the assistant that keeps settings are installed.
    pub fn installs_claude(self) -> (r: bool)
        ensures
            r == (self == NativeProvider::Claude || self == NativeProvider::All),
    {
        match self {
            NativeProvider::Claude | NativeProvider::All => true,
            NativeProvider::Codex => false,
        }
    }

    /// Tells whether the hooks of Codex are installed.
    pub fn installs_codex(self) -> (r: bool)
        ensures
            r == (self == NativeProvider::Codex || self == NativeProvider::All),
    {
        match self {
            NativeProvider::Codex | NativeProvider::All => true,
            NativeProvider::Claude => false,
        }
    }
}

// ---------------------------------------------------------------------------
// Where the files go
// ---------------------------------------------------------------------------

/// The directory below which hooks are installed.
pub open spec fn root_of(
    scope: NativeInstallScope,
    root: Option<Seq<char>>,
    current: Seq<char>,
    home: Option<Seq<char>>,
) -> Result<Seq<char>, Seq<char>> {
    match scope {
        NativeInstallScope::Project => Ok(labels::or_text(root, current)),
        NativeInstallScope::Global => match home {
            Some(dir) => Ok(dir),
            None => Err("HOME environment variable not set"@),
        },
    }
}

/// The directory below which hooks are installed: the one asked for or the
/// current one, or the home directory.
pub fn install_root(
    scope: NativeInstallScope,
    root: &Option<String>,
    current: &str,
    home: &Option<String>,
) -> (r: Result<String, String>)
    ensures
        text::text_result(r) == root_of(
            scope,
            text::opt_text(*root),
            current@,
            text::opt_text(*home),
        ),
{
    match scope {
        NativeInstallScope::Project => Ok(text_or(copy_opt(root), current)),
        NativeInstallScope::Global => match home {
            Some(dir) => Ok(dir.clone()),
            None => Err("HOME environment variable not set".to_owned()),
        },
    }
}

/// A file below a directory, where it is wanted.
pub open spec fn wanted(want: bool, root: Seq<char>, name: Seq<char>) -> Option<Seq<char>> {
    if want {
        Some(paths::below(root, name))
    } else {
        None
    }
}

fn want_path(want: bool, root: &str, name: &str) -> (r: Option<String>)
    ensures
        text::opt_text(r) == wanted(want, root@, name@),
{
    if want {
        Some(join_path(root, name))
    } else {
        None
    }
}

/// The file in which an assistant keeps its settings.
pub open spec fn settings_file(assistant: Seq<char>) -> Seq<char> {
    "."@ + assistant + "/settings.json"@
}

/// The files that an installation below a directory writes. `assistant` is the name
/// of the assistant that keeps settings.
pub fn install_report(
    provider: NativeProvider,
    scope: NativeInstallScope,
    root: &str,
    assistant: &str,
) -> (r: InstallReport)
    ensures
        r.scope == scope,
        r.root@ == root@,
        r.hook_script@ == paths::below(root@, HOOK_SCRIPT@),
        r.project_metadata@ == paths::below(root@, PROJECT_METADATA@),
        r.augment_script@ == paths::below(root@, AUGMENT_SCRIPT@),
        text::opt_text(r.claude_settings) == wanted(
            provider != NativeProvider::Codex,
            root@,
            settings_file(assistant@),
        ),
        text::opt_text(r.codex_config) == wanted(
            provider != NativeProvider::Claude,
            root@,
            CODEX_CONFIG@,
        ),
        text::opt_text(r.codex_hooks) == wanted(
            provider != NativeProvider::Claude,
            root@,
            CODEX_HOOKS@,
        ),
{
    let settings = cat3(".", assistant, "/settings.json");
    InstallReport {
        scope,
        root: root.to_owned(),
        hook_script: join_path(root, HOOK_SCRIPT),
        project_metadata: join_path(root, PROJECT_METADATA),
        augment_script: join_path(root, AUGMENT_SCRIPT),
        claude_settings: want_path(provider.installs_claude(), root, settings.as_str()),
        codex_config: want_path(provider.installs_codex(), root, CODEX_CONFIG),
        codex_hooks: want_path(provider.installs_codex(), root, CODEX_HOOKS),
    }
}

/// The name of a scope.
pub open spec fn scope_name(scope: NativeInstallScope) -> Seq<char> {
    match scope {
        NativeInstallScope::Project => "Project"@,
        NativeInstallScope::Global => "Global"@,
    }
}

/// The lines that report an installation.
pub open spec fn report_lines(report: InstallReport) -> Seq<Seq<char>> {
    let lines = seq![
        "Installed provider-native hooks ("@ + scope_name(report.scope) + " scope) in "@
            + report.root@,
        "  "@ + report.project_metadata@,
        "  "@ + report.hook_script@,
        "  "@ + report.augment_script@,
    ];
    let lines = labels::pushed(
        lines,
        labels::labelled("  "@, text::opt_text(report.claude_settings)),
    );
    let lines = labels::pushed(
        lines,
        labels::labelled("  "@, text::opt_text(report.codex_config)),
    );
    labels::pushed(lines, labels::labelled("  "@, text::opt_text(report.codex_hooks)))
}

/// The lines that report an installation.
pub fn install_lines(report: &InstallReport) -> (r: Vec<String>)
    ensures
        text::views(r@) == report_lines(*report),
{
    let scope = match report.scope {
        NativeInstallScope::Project => "Project",
        NativeInstallScope::Global => "Global",
    };
    let mut lines: Vec<String> = vec![
        cat4(
            "Installed provider-native hooks (",
            scope,
            " scope) in ",
            report.root.as_str(),
        ),
        cat2("  ", report.project_metadata.as_str()),
        cat2("  ", report.hook_script.as_str()),
        cat2("  ", report.augment_script.as_str()),
    ];
    assert(text::views(lines@) =~= seq![
        "Installed provider-native hooks ("@ + scope_name(report.scope) + " scope) in "@
            + report.root@,
        "  "@ + report.project_metadata@,
        "  "@ + report.hook_script@,
        "  "@ + report.augment_script@,
    ]);
    labels::push_part(&mut lines, labels::label("  ", copy_opt(&report.claude_settings)));
    labels::push_part(&mut lines, labels::label("  ", copy_opt(&report.codex_config)));
    labels::push_part(&mut lines, labels::label("  ", copy_opt(&report.codex_hooks)));
    lines
}

// ---------------------------------------------------------------------------
// What the files hold
// ---------------------------------------------------------------------------

/// The name by which a provider is told to the hook script.
pub open spec fn script_provider(provider: NativeProvider, assistant: Seq<char>) -> Seq<char> {
    match provider {
        NativeProvider::Claude => assistant,
        _ => "codex"@,
    }
}

/// The command that runs the hook script.
pub open spec fn hook_command(
    root: Seq<char>,
    scope: NativeInstallScope,
    provider: NativeProvider,
    assistant: Seq<char>,
) -> Seq<char> {
    match scope {
        NativeInstallScope::Project => "bash -lc 'root=\"$(git -C \""@ + root
            + "\" rev-parse --show-toplevel 2>/dev/null || printf %s \""@ + root
            + "\")\"; node \"$root/.clawhip/hooks/native-hook.mjs\" --provider "@
            + script_provider(provider, assistant) + "'"@,
        NativeInstallScope::Global => "node \""@ + paths::below(root, HOOK_SCRIPT@)
            + "\" --provider "@ + script_provider(provider, assistant),
    }
}

/// The command that runs the hook script.
pub fn provider_command(
    root: &str,
    scope: NativeInstallScope,
    provider: NativeProvider,
    assistant: &str,
) -> (r: String)
    ensures
        r@ == hook_command(root@, scope, provider, assistant@),
{
    let name = match provider {
        NativeProvider::Claude => assistant,
        _ => "codex",
    };
    match scope {
        NativeInstallScope::Project => cat7(
            "bash -lc 'root=\"$(git -C \"",
            root,
            "\" rev-parse --show-toplevel 2>/dev/null || printf %s \"",
            root,
            "\")\"; node \"$root/.clawhip/hooks/native-hook.mjs\" --provider ",
            name,
            "'",
        ),
        NativeInstallScope::Global => {
            let script = join_path(root, HOOK_SCRIPT);
            cat4("node \"", script.as_str(), "\" --provider ", name)
        },
    }
}

/// The metadata that a new project starts with.
pub open spec fn new_metadata(root: Seq<char>, assistant: Seq<char>) -> Node {
    let project = labels::or_text(paths::file_name(root), "unknown"@);
    json::empty().with_text("project"@, project).with_text("repo_name"@, project).with(
        "providers"@,
        Node::List(seq![Node::Text(assistant), Node::Text("codex"@)]),
    ).with(
        "shared_events"@,
        Node::List(
            seq![
                Node::Text("SessionStart"@),
                Node::Text("PreToolUse"@),
                Node::Text("PostToolUse"@),
                Node::Text("UserPromptSubmit"@),
                Node::Text("Stop"@),
            ],
        ),
    ).with("augment"@, json::empty().with_text("script"@, ".clawhip/hooks/augment.mjs"@))
}

/// The metadata that a new project starts with.
pub fn default_project_metadata(root: &str, assistant: &str) -> (r: Json)
    ensures
        r@ == new_metadata(root@, assistant@),
{
    let project = text_or(file_name_of(root), "unknown");
    let providers = vec![Json::text(assistant), Json::text("codex")];
    assert(json::nodes(providers@) =~= seq![Node::Text(assistant@), Node::Text("codex"@)]);
    let events = vec![
        Json::text("SessionStart"),
        Json::text("PreToolUse"),
        Json::text("PostToolUse"),
        Json::text("UserPromptSubmit"),
        Json::text("Stop"),
    ];
    assert(json::nodes(events@) =~= seq![
        Node::Text("SessionStart"@),
        Node::Text("PreToolUse"@),
        Node::Text("PostToolUse"@),
        Node::Text("UserPromptSubmit"@),
        Node::Text("Stop"@),
    ]);
    Json::object().with_text("project", project.as_str()).with_text(
        "repo_name",
        project.as_str(),
    ).with("providers", Json::List(providers)).with("shared_events", Json::List(events)).with(
        "augment",
        Json::object().with_text("script", ".clawhip/hooks/augment.mjs"),
    )
}

/// The text of the metadata that a new project starts with.
pub fn project_metadata_text(root: &str, assistant: &str) -> (r: String)
    ensures
        r@ == codec::json_pretty(new_metadata(root@, assistant@)) + "\n"@,
{
    cat2(to_pretty_text(&default_project_metadata(root, assistant)).as_str(), "\n")
}

// ---------------------------------------------------------------------------
// Hooks in settings
// ---------------------------------------------------------------------------

/// A handler that runs a command.
pub open spec fn runs(handler: Node, command: Seq<char>) -> bool {
    json::raw_field(handler, "type"@) == Some("command"@) && json::raw_field(handler, "command"@)
        == Some(command)
}

/// One of some handlers runs a command.
pub open spec fn some_runs(handlers: Seq<Node>, command: Seq<char>) -> bool {
    exists|j: int| 0 <= j < handlers.len() && #[trigger] runs(handlers[j], command)
}

/// A text without the white space at its ends, where there is one.
pub open spec fn trimmed_opt(o: Option<Seq<char>>) -> Option<Seq<char>> {
    match o {
        Some(s) => Some(text::trimmed(s)),
        None => None,
    }
}

/// A group of handlers that has a matcher and runs a command.
pub open spec fn group_runs(group: Node, command: Seq<char>, matcher: Option<Seq<char>>) -> bool {
    &&& trimmed_opt(json::raw_field(group, "matcher"@)) == matcher
    &&& json::items(group, "hooks"@) matches Some(handlers) && some_runs(handlers, command)
}

/// Some group runs a command.
pub open spec fn has_hook(groups: Seq<Node>, command: Seq<char>, matcher: Option<Seq<char>>) -> bool {
    exists|i: int| 0 <= i < groups.len() && #[trigger] group_runs(groups[i], command, matcher)
}

/// A group that runs a command.
pub open spec fn new_group(command: Seq<char>, matcher: Option<Seq<char>>) -> Node {
    json::empty().with_opt_text("matcher"@, matcher).with(
        "hooks"@,
        Node::List(
            seq![
                json::empty().with_text("type"@, "command"@).with_text("command"@, command),
            ],
        ),
    )
}

/// Groups of which one runs a command.
pub open spec fn ensured_groups(
    groups: Seq<Node>,
    command: Seq<char>,
    matcher: Option<Seq<char>>,
) -> Seq<Node> {
    if has_hook(groups, command, matcher) {
        groups
    } else {
        groups.push(new_group(command, matcher))
    }
}

/// Hooks that run a command on an event.
pub open spec fn ensured(
    hooks: Node,
    event: Seq<char>,
    command: Seq<char>,
    matcher: Option<Seq<char>>,
) -> Node {
    let groups = match json::items(hooks, event) {
        Some(items) => items,
        None => Seq::empty(),
    };
    hooks.with(event, Node::List(ensured_groups(groups, command, matcher)))
}

/// The hooks in some settings; none where there is no object of them.
pub open spec fn hooks_in(settings: Node) -> Node {
    match json::member(settings, "hooks"@) {
        Some(Node::Object(m)) => Node::Object(m),
        _ => json::empty(),
    }
}

/// Settings in which a command runs on every shared event; `first` narrows the
/// start of a session.
pub open spec fn hooked(settings: Node, command: Seq<char>, first: Option<Seq<char>>) -> Node {
    let hooks = ensured(hooks_in(settings), "SessionStart"@, command, first);
    let hooks = ensured(hooks, "PreToolUse"@, command, None);
    let hooks = ensured(hooks, "PostToolUse"@, command, None);
    let hooks = ensured(hooks, "UserPromptSubmit"@, command, None);
    let hooks = ensured(hooks, "Stop"@, command, None);
    settings.with("hooks"@, hooks)
}

fn handler_runs(handler: &Json, command: &str) -> (r: bool)
    ensures
        r == runs(handler@, command@),
{
    match (handler.raw_field("type"), handler.raw_field("command")) {
        (Some(a), Some(b)) => same(a, "command") && same(b, command),
        _ => false,
    }
}

fn some_handler_runs(handlers: &Vec<Json>, command: &str) -> (r: bool)
    ensures
        r == some_runs(json::nodes(handlers@), command@),
{
    let ghost all = json::nodes(handlers@);
    let mut i: usize = 0;
    while i < handlers.len()
        invariant
            i <= handlers.len(),
            all == json::nodes(handlers@),
            forall|j: int| 0 <= j < i ==> !#[trigger] runs(all[j], command@),
        decreases handlers.len() - i,
    {
        if handler_runs(&handlers[i], command) {
            assert(runs(all[i as int], command@));
            return true;
        }
        i = i + 1;
    }
    false
}

fn group_has(group: &Json, command: &str, matcher: &Option<String>) -> (r: bool)
    ensures
        r == group_runs(group@, command@, text::opt_text(*matcher)),
{
    let same_matcher = match (group.raw_field("matcher"), matcher) {
        (Some(a), Some(b)) => same(trim(a), b.as_str()),
        (None, None) => true,
        _ => false,
    };
    match group.items("hooks") {
        Some(handlers) => same_matcher && some_handler_runs(handlers, command),
        None => false,
    }
}

fn ensure_command_hook_array(groups: &mut Vec<Json>, command: &str, matcher: &Option<String>)
    ensures
        json::nodes(final(groups)@) == ensured_groups(
            json::nodes(old(groups)@),
            command@,
            text::opt_text(*matcher),
        ),
{
    let ghost all = json::nodes(groups@);
    let mut i: usize = 0;
    while i < groups.len()
        invariant
            i <= groups.len(),
            groups@ == old(groups)@,
            all == json::nodes(groups@),
            forall|j: int|
                0 <= j < i ==> !#[trigger] group_runs(all[j], command@, text::opt_text(*matcher)),
        decreases groups.len() - i,
    {
        if group_has(&groups[i], command, matcher) {
            assert(group_runs(all[i as int], command@, text::opt_text(*matcher)));
            return ;
        }
        i = i + 1;
    }
    let handler = Json::object().with_text("type", "command").with_text("command", command);
    let handlers = vec![handler];
    assert(json::nodes(handlers@) =~= seq![
        json::empty().with_text("type"@, "command"@).with_text("command"@, command@),
    ]);
    let group = Json::object().with_opt_text("matcher", matcher).with(
        "hooks",
        Json::List(handlers),
    );
    groups.push(group);
}

fn ensure_command_hook(hooks: &mut Json, event: &str, command: &str, matcher: &Option<String>)
    ensures
        final(hooks)@ == ensured(old(hooks)@, event@, command@, text::opt_text(*matcher)),
{
    let mut groups: Vec<Json> = match hooks.get(event) {
        Some(value) => match value.clone() {
            Json::List(items) => items,
            _ => Vec::new(),
        },
        None => Vec::new(),
    };
    let ghost before = match json::items(hooks@, event@) {
        Some(items) => items,
        None => Seq::empty(),
    };
    assert(json::nodes(groups@) =~= before);
    ensure_command_hook_array(&mut groups, command, matcher);
    hooks.insert(event, Json::List(groups));
}

fn with_hooks(settings: Json, command: &str, first: Option<String>) -> (r: Json)
    ensures
        r@ == hooked(settings@, command@, text::opt_text(first)),
{
    let mut hooks = match settings.get("hooks") {
        Some(value) => {
            if value.is_object() {
                value.clone()
            } else {
                Json::object()
            }
        },
        None => Json::object(),
    };
    let none: Option<String> = None;
    ensure_command_hook(&mut hooks, "SessionStart", command, &first);
    ensure_command_hook(&mut hooks, "PreToolUse", command, &none);
    ensure_command_hook(&mut hooks, "PostToolUse", command, &none);
    ensure_command_hook(&mut hooks, "UserPromptSubmit", command, &none);
    ensure_command_hook(&mut hooks, "Stop", command, &none);
    settings.with("hooks", hooks)
}

/// The settings that a file holds: an object, and an empty one where there is no
/// file.
pub open spec fn stored_settings(path: Seq<char>, existing: Option<Seq<char>>) -> Result<
    Node,
    Seq<char>,
> {
    match existing {
        None => Ok(json::empty()),
        Some(s) => match codec::read_text(s) {
            Err(e) => Err(e),
            Ok(node) => if node is Object {
                Ok(node)
            } else {
                Err(path + " must contain a JSON object"@)
            },
        },
    }
}

fn read_json_object(path: &str, existing: Option<&str>) -> (r: Result<Json, String>)
    ensures
        codec::json_result(r) == stored_settings(path@, text::opt_str(existing)),
{
    match existing {
        None => Ok(Json::object()),
        Some(s) => match parse_json(s) {
            Err(e) => Err(e),
            Ok(json) => {
                if json.is_object() {
                    Ok(json)
                } else {
                    Err(cat2(path, " must contain a JSON object"))
                }
            },
        },
    }
}

/// The text of settings to which hooks were added.
pub open spec fn settings_text(
    path: Seq<char>,
    existing: Option<Seq<char>>,
    command: Seq<char>,
    first: Option<Seq<char>>,
) -> Result<Seq<char>, Seq<char>> {
    match stored_settings(path, existing) {
        Ok(settings) => Ok(codec::json_pretty(hooked(settings, command, first)) + "\n"@),
        Err(e) => Err(e),
    }
}

fn add_hooks(path: &str, existing: Option<&str>, command: &str, first: Option<String>) -> (r:
    Result<String, String>)
    ensures
        text::text_result(r) == settings_text(
            path@,
            text::opt_str(existing),
            command@,
            text::opt_text(first),
        ),
{
    match read_json_object(path, existing) {
        Ok(settings) => {
            let settings = with_hooks(settings, command, first);
            Ok(cat2(to_pretty_text(&settings).as_str(), "\n"))
        },
        Err(e) => Err(e),
    }
}

/// The text of an assistant's settings with the hooks added. `existing` is the text of
/// the present settings.
pub fn claude_settings_text(path: &str, existing: Option<&str>, command: &str) -> (r: Result<
    String,
    String,
>)
    ensures
        text::text_result(r) == settings_text(path@, text::opt_str(existing), command@, None),
{
    add_hooks(path, existing, command, None)
}

/// The text of Codex's hooks with ours added. `existing` is the text of the
/// present hooks.
pub fn codex_hooks_text(path: &str, existing: Option<&str>, command: &str) -> (r: Result<
    String,
    String,
>)
    ensures
        text::text_result(r) == settings_text(
            path@,
            text::opt_str(existing),
            command@,
            Some("startup|resume|clear|compact"@),
        ),
{
    add_hooks(path, existing, command, Some("startup|resume|clear|compact".to_owned()))
}

// ---------------------------------------------------------------------------
// Laws
// ---------------------------------------------------------------------------

/// After a hook is installed it is there, every group that was there still is,
/// and installing it again changes nothing.
pub proof fn law_hook_is_added_once(
    groups: Seq<Node>,
    command: Seq<char>,
    matcher: Option<Seq<char>>,
)
    requires
        trimmed_opt(matcher) == matcher,
    ensures
        has_hook(ensured_groups(groups, command, matcher), command, matcher),
        groups.is_prefix_of(ensured_groups(groups, command, matcher)),
        ensured_groups(ensured_groups(groups, command, matcher), command, matcher)
            == ensured_groups(groups, command, matcher),
{
    let after = ensured_groups(groups, command, matcher);
    if !has_hook(groups, command, matcher) {
        let handler = json::empty().with_text("type"@, "command"@).with_text("command"@, command);
        let group = new_group(command, matcher);
        let bare = json::empty().with_opt_text("matcher"@, matcher);
        assert("type"@ != "command"@ && "matcher"@ != "hooks"@) by {
            reveal_strlit("type");
            reveal_strlit("command");
            reveal_strlit("matcher");
            reveal_strlit("hooks");
            assert("type"@.len() == 4 && "command"@.len() == 7);
            assert("matcher"@.len() == 7 && "hooks"@.len() == 5);
        }
        let none = Seq::<(Seq<char>, Node)>::empty();
        let typed = crate::table::put(none, "type"@, Node::Text("command"@));
        crate::table::law_put_then_lookup(none, "type"@, Node::Text("command"@), "command"@);
        crate::table::law_put_then_lookup(typed, "command"@, Node::Text(command), "type"@);
        assert(runs(handler, command));
        match matcher {
            Some(m) => crate::table::law_put_then_lookup(
                none,
                "matcher"@,
                Node::Text(m),
                "matcher"@,
            ),
            None => {},
        }
        crate::table::law_put_then_lookup(
            bare->Object_0,
            "hooks"@,
            Node::List(seq![handler]),
            "matcher"@,
        );
        assert(runs(seq![handler][0], command));
        assert(some_runs(seq![handler], command));
        assert(json::items(group, "hooks"@) == Some(seq![handler]));
        assert(trimmed_opt(json::raw_field(group, "matcher"@)) == matcher);
        assert(group_runs(group, command, matcher));
        assert(after[groups.len() as int] == group);
        assert(group_runs(after[groups.len() as int], command, matcher));
    }
}

/// Adding hooks to settings leaves every other setting as it was.
pub proof fn law_hooks_keep_settings(
    settings: Node,
    command: Seq<char>,
    first: Option<Seq<char>>,
    key: Seq<char>,
)
    requires
        key != "hooks"@,
    ensures
        json::member(hooked(settings, command, first), key) == json::member(settings, key),
{
    match settings {
        Node::Object(m) => {
            let hooks = json::member(hooked(settings, command, first), "hooks"@);
            let after = hooked(settings, command, first)->Object_0;
            let h1 = ensured(hooks_in(settings), "SessionStart"@, command, first);
            let h2 = ensured(h1, "PreToolUse"@, command, None);
            let h3 = ensured(h2, "PostToolUse"@, command, None);
            let h4 = ensured(h3, "UserPromptSubmit"@, command, None);
            let h5 = ensured(h4, "Stop"@, command, None);
            crate::table::law_put_then_lookup(m, "hooks"@, h5, key);
        },
        _ => {},
    }
}

} // verus!
