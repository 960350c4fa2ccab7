//! What installing the hooks leaves behind.
use vstd::prelude::*;
use vstd::string::*;

use crate::codec;
use crate::hook_install;
use crate::hook_install::{InstallReport, NativeInstallScope, NativeProvider};
use crate::json;
use crate::json::Node;
use crate::json_laws;
use crate::paths;

verus! {

broadcast use {json_laws::group_members, json_laws::group_optional_members};

/// Hooks for a project go below its root, which is the current directory where none is named,
/// and hooks for everything below the home directory, which has to be known.
pub proof fn law_where_hooks_go(
    root: Option<Seq<char>>,
    current: Seq<char>,
    home: Option<Seq<char>>,
)
    ensures
        hook_install::root_of(NativeInstallScope::Project, root, current, home) == Ok::<
            Seq<char>,
            Seq<char>,
        >(
            match root {
                Some(dir) => dir,
                None => current,
            },
        ),
        hook_install::root_of(NativeInstallScope::Global, root, current, home) == (match home {
            Some(dir) => Ok::<Seq<char>, Seq<char>>(dir),
            None => Err("HOME environment variable not set"@),
        }),
{
}

/// The groups of handlers that some settings have for an event.
pub open spec fn groups_for(settings: Node, event: Seq<char>) -> Seq<Node> {
    match json::member(settings, "hooks"@) {
        Some(Node::Object(m)) => match json::member(Node::Object(m), event) {
            Some(Node::List(groups)) => groups,
            _ => Seq::empty(),
        },
        _ => Seq::empty(),
    }
}

proof fn lemma_ensured(
    hooks: Node,
    event: Seq<char>,
    command: Seq<char>,
    matcher: Option<Seq<char>>,
    other: Seq<char>,
)
    requires
        hooks is Object,
    ensures
        hook_install::ensured(hooks, event, command, matcher) is Object,
        other != event ==> json::member(
            hook_install::ensured(hooks, event, command, matcher),
            other,
        ) == json::member(hooks, other),
        json::member(hook_install::ensured(hooks, event, command, matcher), event) == Some(
            Node::List(
                hook_install::ensured_groups(
                    match json::member(hooks, event) {
                        Some(Node::List(groups)) => groups,
                        _ => Seq::empty(),
                    },
                    command,
                    matcher,
                ),
            ),
        ),
{
}

proof fn lemma_events()
    ensures
        "SessionStart"@ != "PreToolUse"@,
        "SessionStart"@ != "PostToolUse"@,
        "SessionStart"@ != "UserPromptSubmit"@,
        "SessionStart"@ != "Stop"@,
        "PreToolUse"@ != "PostToolUse"@,
        "PreToolUse"@ != "UserPromptSubmit"@,
        "PreToolUse"@ != "Stop"@,
        "PostToolUse"@ != "UserPromptSubmit"@,
        "PostToolUse"@ != "Stop"@,
        "UserPromptSubmit"@ != "Stop"@,
{
    reveal_strlit("SessionStart");
    reveal_strlit("PreToolUse");
    reveal_strlit("PostToolUse");
    reveal_strlit("UserPromptSubmit");
    reveal_strlit("Stop");
    assert("SessionStart"@.len() == 12);
    assert("PreToolUse"@.len() == 10);
    assert("PostToolUse"@.len() == 11);
    assert("UserPromptSubmit"@.len() == 16);
    assert("Stop"@.len() == 4);
}

/// One of the events on which hooks run.
pub open spec fn is_shared(event: Seq<char>) -> bool {
    event == "SessionStart"@ || event == "PreToolUse"@ || event == "PostToolUse"@ || event
        == "UserPromptSubmit"@ || event == "Stop"@
}

/// After hooks were added the command runs on each of the shared events, on the start of a
/// session with the matcher that is given and on the others with none; what ran before still
/// runs, and nothing is added to other events.
pub proof fn law_command_runs_on_every_event(
    settings: Node,
    command: Seq<char>,
    first: Option<Seq<char>>,
    event: Seq<char>,
)
    requires
        settings is Object,
        hook_install::trimmed_opt(first) == first,
    ensures
        ({
            let after = hook_install::hooked(settings, command, first);
            let before = groups_for(settings, event);
            let groups = groups_for(after, event);
            let matcher = if event == "SessionStart"@ {
                first
            } else {
                None
            };
            &&& is_shared(event) ==> hook_install::has_hook(groups, command, matcher)
            &&& is_shared(event) ==> before.is_prefix_of(groups) && groups.len() <= before.len()
                + 1
            &&& is_shared(event) && hook_install::has_hook(before, command, matcher) ==> groups
                == before
            &&& !is_shared(event) ==> groups == before
        }),
{
    lemma_events();
    let h0 = hook_install::hooks_in(settings);
    let h1 = hook_install::ensured(h0, "SessionStart"@, command, first);
    let h2 = hook_install::ensured(h1, "PreToolUse"@, command, None);
    let h3 = hook_install::ensured(h2, "PostToolUse"@, command, None);
    let h4 = hook_install::ensured(h3, "UserPromptSubmit"@, command, None);
    let h5 = hook_install::ensured(h4, "Stop"@, command, None);
    lemma_ensured(h0, "SessionStart"@, command, first, event);
    lemma_ensured(h1, "PreToolUse"@, command, None, event);
    lemma_ensured(h2, "PostToolUse"@, command, None, event);
    lemma_ensured(h3, "UserPromptSubmit"@, command, None, event);
    lemma_ensured(h4, "Stop"@, command, None, event);
    let before = groups_for(settings, event);
    assert(before == match json::member(h0, event) {
        Some(Node::List(groups)) => groups,
        _ => Seq::empty(),
    });
    let matcher = if event == "SessionStart"@ {
        first
    } else {
        None
    };
    hook_install::law_hook_is_added_once(before, command, matcher);
    assert(groups_for(hook_install::hooked(settings, command, first), event) == match json::member(
        h5,
        event,
    ) {
        Some(Node::List(groups)) => groups,
        _ => Seq::empty(),
    });
}

/// A group of handlers runs a command where it has the matcher and one of its handlers is of
/// the type for commands and names it.
pub proof fn law_group_that_runs_a_command(
    group: Node,
    handlers: Seq<Node>,
    i: int,
    command: Seq<char>,
)
    requires
        json::member(group, "matcher"@) is None,
        json::member(group, "hooks"@) == Some(Node::List(handlers)),
        0 <= i < handlers.len(),
        json::member(handlers[i], "type"@) == Some(Node::Text("command"@)),
        json::member(handlers[i], "command"@) == Some(Node::Text(command)),
    ensures
        hook_install::group_runs(group, command, None),
{
    assert(hook_install::runs(handlers[i], command));
}

/// Settings have to be an object; where there is no file they are empty.
pub proof fn law_stored_settings(path: Seq<char>, s: Seq<char>)
    ensures
        hook_install::stored_settings(path, None) == Ok::<Node, Seq<char>>(json::empty()),
        match codec::read_text(s) {
            Ok(Node::Object(m)) => hook_install::stored_settings(path, Some(s)) == Ok::<
                Node,
                Seq<char>,
            >(Node::Object(m)),
            Ok(_) => hook_install::stored_settings(path, Some(s)) == Err::<Node, Seq<char>>(
                path + " must contain a JSON object"@,
            ),
            Err(e) => hook_install::stored_settings(path, Some(s)) == Err::<Node, Seq<char>>(e),
        },
{
}

/// The command that hooks run names the provider; for everything it runs the script below the
/// home directory.
pub proof fn law_command_of_hooks(root: Seq<char>, assistant: Seq<char>)
    ensures
        hook_install::hook_command(
            root,
            NativeInstallScope::Global,
            NativeProvider::Claude,
            assistant,
        ) == "node \""@ + paths::below(root, ".clawhip/hooks/native-hook.mjs"@)
            + "\" --provider "@ + assistant,
        hook_install::hook_command(
            root,
            NativeInstallScope::Global,
            NativeProvider::Codex,
            assistant,
        ) == "node \""@ + paths::below(root, ".clawhip/hooks/native-hook.mjs"@)
            + "\" --provider "@ + "codex"@,
        hook_install::hook_command(
            root,
            NativeInstallScope::Project,
            NativeProvider::Codex,
            assistant,
        ) == "bash -lc 'root=\"$(git -C \""@ + root
            + "\" rev-parse --show-toplevel 2>/dev/null || printf %s \""@ + root
            + "\")\"; node \"$root/.clawhip/hooks/native-hook.mjs\" --provider "@ + "codex"@
            + "'"@,
        hook_install::hook_command(
            root,
            NativeInstallScope::Project,
            NativeProvider::Claude,
            assistant,
        ) == "bash -lc 'root=\"$(git -C \""@ + root
            + "\" rev-parse --show-toplevel 2>/dev/null || printf %s \""@ + root
            + "\")\"; node \"$root/.clawhip/hooks/native-hook.mjs\" --provider "@ + assistant
            + "'"@,
{
}

/// The metadata that a project starts with names it after its directory, and lists the
/// providers and the shared events.
pub proof fn law_first_metadata(root: Seq<char>, assistant: Seq<char>)
    ensures
        ({
            let m = hook_install::new_metadata(root, assistant);
            let name = match paths::file_name(root) {
                Some(s) => Node::Text(s),
                None => Node::Text("unknown"@),
            };
            &&& json::member(m, "project"@) == Some(name)
            &&& json::member(m, "repo_name"@) == Some(name)
            &&& json::member(m, "providers"@) == Some(
                Node::List(seq![Node::Text(assistant), Node::Text("codex"@)]),
            )
            &&& json::member(m, "shared_events"@) == Some(
                Node::List(
                    seq![
                        Node::Text("SessionStart"@),
                        Node::Text("PreToolUse"@),
                        Node::Text("PostToolUse"@),
                        Node::Text("UserPromptSubmit"@),
                        Node::Text("Stop"@),
                    ],
                ),
            )
            &&& match json::member(m, "augment"@) {
                Some(augment) => json::member(augment, "script"@) == Some(
                    Node::Text(".clawhip/hooks/augment.mjs"@),
                ),
                None => false,
            }
        }),
{
    reveal_strlit("project");
    reveal_strlit("repo_name");
    reveal_strlit("providers");
    reveal_strlit("shared_events");
    reveal_strlit("augment");
    reveal_strlit("script");
    assert("project"@.len() == 7);
    assert("project"@[0] == 'p');
    assert("repo_name"@.len() == 9);
    assert("repo_name"@[0] == 'r');
    assert("providers"@.len() == 9);
    assert("providers"@[0] == 'p');
    assert("shared_events"@.len() == 13);
    assert("augment"@.len() == 7);
    assert("augment"@[0] == 'a');
    assert("script"@.len() == 6);
}

/// A report names the scope and the root, and then every file that was written.
pub proof fn law_report_of_an_installation(report: InstallReport)
    ensures
        ({
            let lines = hook_install::report_lines(report);
            let scope = match report.scope {
                NativeInstallScope::Project => "Project"@,
                NativeInstallScope::Global => "Global"@,
            };
            let a = report.claude_settings;
            let b = report.codex_config;
            let c = report.codex_hooks;
            &&& lines.len() >= 4
            &&& lines[0] == "Installed provider-native hooks ("@ + scope + " scope) in "@
                + report.root@
            &&& lines[1] == "  "@ + report.project_metadata@
            &&& lines[2] == "  "@ + report.hook_script@
            &&& lines[3] == "  "@ + report.augment_script@
            &&& a is Some ==> lines.contains("  "@ + a->0@)
            &&& b is Some ==> lines.contains("  "@ + b->0@)
            &&& c is Some ==> lines.contains("  "@ + c->0@)
        }),
{
    let lines = hook_install::report_lines(report);
    let a = report.claude_settings;
    let b = report.codex_config;
    let c = report.codex_hooks;
    let i: int = 4;
    let j: int = if a is Some {
        5
    } else {
        4
    };
    let k: int = if b is Some {
        j + 1
    } else {
        j
    };
    if a is Some {
        assert(lines[i] == "  "@ + a->0@);
    }
    if b is Some {
        assert(lines[j] == "  "@ + b->0@);
    }
    if c is Some {
        assert(lines[k] == "  "@ + c->0@);
    }
}

/// A file is named where it is wanted, below the root.
pub proof fn law_files_that_are_wanted(root: Seq<char>, name: Seq<char>, assistant: Seq<char>)
    ensures
        hook_install::wanted(true, root, name) == Some(paths::below(root, name)),
        hook_install::wanted(false, root, name) is None,
        hook_install::settings_file(assistant) == "."@ + assistant + "/settings.json"@,
{
}

/// What is written to a file of settings are those that it held, with the hooks added, indented
/// and with a line feed at the end.
pub proof fn law_text_of_settings(
    path: Seq<char>,
    existing: Option<Seq<char>>,
    command: Seq<char>,
    first: Option<Seq<char>>,
)
    ensures
        match (
            hook_install::stored_settings(path, existing),
            hook_install::settings_text(path, existing, command, first),
        ) {
            (Ok(settings), Ok(written)) => written == codec::json_pretty(
                hook_install::hooked(settings, command, first),
            ) + "\n"@,
            (Err(e), Err(said)) => said == e,
            _ => false,
        },
{
}

} // verus!
