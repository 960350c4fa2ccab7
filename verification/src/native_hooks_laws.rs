//! What the event of a hook says.
use vstd::prelude::*;
use vstd::string::*;

use crate::json;
use crate::json::Node;
use crate::json_laws;
use crate::native_hooks;
use crate::native_hooks::{HookFacts, MetadataStepView};
use crate::paths;
use crate::scan;
use crate::table;
use crate::text;

verus! {

/// A text of a payload, where there is one.
pub open spec fn text_node(o: Option<Seq<char>>) -> Option<Node> {
    match o {
        Some(s) => Some(Node::Text(s)),
        None => None,
    }
}

/// The first of two values that is there.
pub open spec fn first_of<T>(a: Option<T>, b: Option<T>) -> Option<T> {
    if a is Some {
        a
    } else {
        b
    }
}

/// Where a hook names its provider.
pub open spec fn provider_in(p: Node) -> Option<Seq<char>> {
    first_of(
        json::field_at(p, "/provider"@),
        first_of(
            json::field_at(p, "/source/provider"@),
            first_of(
                json::field_at(p, "/context/provider"@),
                json::field_at(p, "/payload/provider"@),
            ),
        ),
    )
}

proof fn lemma_provider_in(p: Node)
    ensures
        native_hooks::first_at(p, native_hooks::provider_paths()) == provider_in(p),
{
    let s0 = native_hooks::provider_paths();
    assert(s0[0] == "/provider");
    let s1 = s0.drop_first();
    assert(s1[0] == "/source/provider");
    assert(s1[1] == "/context/provider");
    assert(s1[2] == "/payload/provider");
    assert(s1[0] == "/source/provider");
    let s2 = s1.drop_first();
    assert(s2[0] == "/context/provider");
    assert(s2[1] == "/payload/provider");
    assert(s2[0] == "/context/provider");
    let s3 = s2.drop_first();
    assert(s3[0] == "/payload/provider");
    assert(s3[0] == "/payload/provider");
    let s4 = s3.drop_first();
    assert(s4.len() == 0);
    reveal_with_fuel(native_hooks::first_at, 5);
}

/// Where a hook names what happened.
pub open spec fn event_name_in(p: Node) -> Option<Seq<char>> {
    first_of(
        json::field_at(p, "/event_name"@),
        first_of(
            json::field_at(p, "/event"@),
            first_of(
                json::field_at(p, "/hook_event_name"@),
                first_of(
                    json::field_at(p, "/hookEventName"@),
                    first_of(
                        json::field_at(p, "/payload/hook_event_name"@),
                        json::field_at(p, "/payload/hookEventName"@),
                    ),
                ),
            ),
        ),
    )
}

proof fn lemma_event_name_in(p: Node)
    ensures
        native_hooks::first_at(p, native_hooks::event_name_paths()) == event_name_in(p),
{
    let s0 = native_hooks::event_name_paths();
    assert(s0[0] == "/event_name");
    let s1 = s0.drop_first();
    assert(s1[0] == "/event");
    assert(s1[1] == "/hook_event_name");
    assert(s1[2] == "/hookEventName");
    assert(s1[3] == "/payload/hook_event_name");
    assert(s1[4] == "/payload/hookEventName");
    assert(s1[0] == "/event");
    let s2 = s1.drop_first();
    assert(s2[0] == "/hook_event_name");
    assert(s2[1] == "/hookEventName");
    assert(s2[2] == "/payload/hook_event_name");
    assert(s2[3] == "/payload/hookEventName");
    assert(s2[0] == "/hook_event_name");
    let s3 = s2.drop_first();
    assert(s3[0] == "/hookEventName");
    assert(s3[1] == "/payload/hook_event_name");
    assert(s3[2] == "/payload/hookEventName");
    assert(s3[0] == "/hookEventName");
    let s4 = s3.drop_first();
    assert(s4[0] == "/payload/hook_event_name");
    assert(s4[1] == "/payload/hookEventName");
    assert(s4[0] == "/payload/hook_event_name");
    let s5 = s4.drop_first();
    assert(s5[0] == "/payload/hookEventName");
    assert(s5[0] == "/payload/hookEventName");
    let s6 = s5.drop_first();
    assert(s6.len() == 0);
    reveal_with_fuel(native_hooks::first_at, 7);
}

/// Where a hook names its directory.
pub open spec fn directory_in(p: Node) -> Option<Seq<char>> {
    first_of(
        json::field_at(p, "/directory"@),
        first_of(
            json::field_at(p, "/cwd"@),
            first_of(
                json::field_at(p, "/context/directory"@),
                first_of(
                    json::field_at(p, "/context/cwd"@),
                    first_of(
                        json::field_at(p, "/payload/cwd"@),
                        first_of(
                            json::field_at(p, "/payload/directory"@),
                            first_of(
                                json::field_at(p, "/repo_path"@),
                                first_of(
                                    json::field_at(p, "/projectPath"@),
                                    json::field_at(p, "/context/projectPath"@),
                                ),
                            ),
                        ),
                    ),
                ),
            ),
        ),
    )
}

proof fn lemma_directory_in(p: Node)
    ensures
        native_hooks::first_at(p, native_hooks::directory_paths()) == directory_in(p),
{
    let s0 = native_hooks::directory_paths();
    assert(s0[0] == "/directory");
    let s1 = s0.drop_first();
    assert(s1[0] == "/cwd");
    assert(s1[1] == "/context/directory");
    assert(s1[2] == "/context/cwd");
    assert(s1[3] == "/payload/cwd");
    assert(s1[4] == "/payload/directory");
    assert(s1[5] == "/repo_path");
    assert(s1[6] == "/projectPath");
    assert(s1[7] == "/context/projectPath");
    assert(s1[0] == "/cwd");
    let s2 = s1.drop_first();
    assert(s2[0] == "/context/directory");
    assert(s2[1] == "/context/cwd");
    assert(s2[2] == "/payload/cwd");
    assert(s2[3] == "/payload/directory");
    assert(s2[4] == "/repo_path");
    assert(s2[5] == "/projectPath");
    assert(s2[6] == "/context/projectPath");
    assert(s2[0] == "/context/directory");
    let s3 = s2.drop_first();
    assert(s3[0] == "/context/cwd");
    assert(s3[1] == "/payload/cwd");
    assert(s3[2] == "/payload/directory");
    assert(s3[3] == "/repo_path");
    assert(s3[4] == "/projectPath");
    assert(s3[5] == "/context/projectPath");
    assert(s3[0] == "/context/cwd");
    let s4 = s3.drop_first();
    assert(s4[0] == "/payload/cwd");
    assert(s4[1] == "/payload/directory");
    assert(s4[2] == "/repo_path");
    assert(s4[3] == "/projectPath");
    assert(s4[4] == "/context/projectPath");
    assert(s4[0] == "/payload/cwd");
    let s5 = s4.drop_first();
    assert(s5[0] == "/payload/directory");
    assert(s5[1] == "/repo_path");
    assert(s5[2] == "/projectPath");
    assert(s5[3] == "/context/projectPath");
    assert(s5[0] == "/payload/directory");
    let s6 = s5.drop_first();
    assert(s6[0] == "/repo_path");
    assert(s6[1] == "/projectPath");
    assert(s6[2] == "/context/projectPath");
    assert(s6[0] == "/repo_path");
    let s7 = s6.drop_first();
    assert(s7[0] == "/projectPath");
    assert(s7[1] == "/context/projectPath");
    assert(s7[0] == "/projectPath");
    let s8 = s7.drop_first();
    assert(s8[0] == "/context/projectPath");
    assert(s8[0] == "/context/projectPath");
    let s9 = s8.drop_first();
    assert(s9.len() == 0);
    reveal_with_fuel(native_hooks::first_at, 10);
}

/// Where a hook names the path of the repository.
pub open spec fn repo_path_in(p: Node) -> Option<Seq<char>> {
    first_of(
        json::field_at(p, "/repo_path"@),
        first_of(
            json::field_at(p, "/context/repo_path"@),
            first_of(
                json::field_at(p, "/payload/repo_path"@),
                json::field_at(p, "/git/repo_path"@),
            ),
        ),
    )
}

proof fn lemma_repo_path_in(p: Node)
    ensures
        native_hooks::first_at(p, native_hooks::repo_path_paths()) == repo_path_in(p),
{
    let s0 = native_hooks::repo_path_paths();
    assert(s0[0] == "/repo_path");
    let s1 = s0.drop_first();
    assert(s1[0] == "/context/repo_path");
    assert(s1[1] == "/payload/repo_path");
    assert(s1[2] == "/git/repo_path");
    assert(s1[0] == "/context/repo_path");
    let s2 = s1.drop_first();
    assert(s2[0] == "/payload/repo_path");
    assert(s2[1] == "/git/repo_path");
    assert(s2[0] == "/payload/repo_path");
    let s3 = s2.drop_first();
    assert(s3[0] == "/git/repo_path");
    assert(s3[0] == "/git/repo_path");
    let s4 = s3.drop_first();
    assert(s4.len() == 0);
    reveal_with_fuel(native_hooks::first_at, 5);
}

/// Where a hook names the path of the worktree.
pub open spec fn worktree_path_in(p: Node) -> Option<Seq<char>> {
    first_of(
        json::field_at(p, "/worktree_path"@),
        first_of(
            json::field_at(p, "/context/worktree_path"@),
            first_of(
                json::field_at(p, "/payload/worktree_path"@),
                json::field_at(p, "/payload/cwd"@),
            ),
        ),
    )
}

proof fn lemma_worktree_path_in(p: Node)
    ensures
        native_hooks::first_at(p, native_hooks::worktree_path_paths()) == worktree_path_in(p),
{
    let s0 = native_hooks::worktree_path_paths();
    assert(s0[0] == "/worktree_path");
    let s1 = s0.drop_first();
    assert(s1[0] == "/context/worktree_path");
    assert(s1[1] == "/payload/worktree_path");
    assert(s1[2] == "/payload/cwd");
    assert(s1[0] == "/context/worktree_path");
    let s2 = s1.drop_first();
    assert(s2[0] == "/payload/worktree_path");
    assert(s2[1] == "/payload/cwd");
    assert(s2[0] == "/payload/worktree_path");
    let s3 = s2.drop_first();
    assert(s3[0] == "/payload/cwd");
    assert(s3[0] == "/payload/cwd");
    let s4 = s3.drop_first();
    assert(s4.len() == 0);
    reveal_with_fuel(native_hooks::first_at, 5);
}

/// Where a hook names the project.
pub open spec fn project_in(p: Node) -> Option<Seq<char>> {
    first_of(
        json::field_at(p, "/project"@),
        first_of(
            json::field_at(p, "/project_name"@),
            first_of(
                json::field_at(p, "/projectName"@),
                first_of(
                    json::field_at(p, "/context/project"@),
                    first_of(
                        json::field_at(p, "/context/project_name"@),
                        first_of(
                            json::field_at(p, "/context/projectName"@),
                            first_of(
                                json::field_at(p, "/payload/project"@),
                                json::field_at(p, "/payload/project_name"@),
                            ),
                        ),
                    ),
                ),
            ),
        ),
    )
}

proof fn lemma_project_in(p: Node)
    ensures
        native_hooks::first_at(p, native_hooks::project_paths()) == project_in(p),
{
    let s0 = native_hooks::project_paths();
    assert(s0[0] == "/project");
    let s1 = s0.drop_first();
    assert(s1[0] == "/project_name");
    assert(s1[1] == "/projectName");
    assert(s1[2] == "/context/project");
    assert(s1[3] == "/context/project_name");
    assert(s1[4] == "/context/projectName");
    assert(s1[5] == "/payload/project");
    assert(s1[6] == "/payload/project_name");
    assert(s1[0] == "/project_name");
    let s2 = s1.drop_first();
    assert(s2[0] == "/projectName");
    assert(s2[1] == "/context/project");
    assert(s2[2] == "/context/project_name");
    assert(s2[3] == "/context/projectName");
    assert(s2[4] == "/payload/project");
    assert(s2[5] == "/payload/project_name");
    assert(s2[0] == "/projectName");
    let s3 = s2.drop_first();
    assert(s3[0] == "/context/project");
    assert(s3[1] == "/context/project_name");
    assert(s3[2] == "/context/projectName");
    assert(s3[3] == "/payload/project");
    assert(s3[4] == "/payload/project_name");
    assert(s3[0] == "/context/project");
    let s4 = s3.drop_first();
    assert(s4[0] == "/context/project_name");
    assert(s4[1] == "/context/projectName");
    assert(s4[2] == "/payload/project");
    assert(s4[3] == "/payload/project_name");
    assert(s4[0] == "/context/project_name");
    let s5 = s4.drop_first();
    assert(s5[0] == "/context/projectName");
    assert(s5[1] == "/payload/project");
    assert(s5[2] == "/payload/project_name");
    assert(s5[0] == "/context/projectName");
    let s6 = s5.drop_first();
    assert(s6[0] == "/payload/project");
    assert(s6[1] == "/payload/project_name");
    assert(s6[0] == "/payload/project");
    let s7 = s6.drop_first();
    assert(s7[0] == "/payload/project_name");
    assert(s7[0] == "/payload/project_name");
    let s8 = s7.drop_first();
    assert(s8.len() == 0);
    reveal_with_fuel(native_hooks::first_at, 9);
}

/// Where a hook names the repository.
pub open spec fn repo_name_in(p: Node) -> Option<Seq<char>> {
    first_of(
        json::field_at(p, "/repo_name"@),
        first_of(
            json::field_at(p, "/context/repo_name"@),
            json::field_at(p, "/payload/repo_name"@),
        ),
    )
}

proof fn lemma_repo_name_in(p: Node)
    ensures
        native_hooks::first_at(p, native_hooks::repo_name_paths()) == repo_name_in(p),
{
    let s0 = native_hooks::repo_name_paths();
    assert(s0[0] == "/repo_name");
    let s1 = s0.drop_first();
    assert(s1[0] == "/context/repo_name");
    assert(s1[1] == "/payload/repo_name");
    assert(s1[0] == "/context/repo_name");
    let s2 = s1.drop_first();
    assert(s2[0] == "/payload/repo_name");
    assert(s2[0] == "/payload/repo_name");
    let s3 = s2.drop_first();
    assert(s3.len() == 0);
    reveal_with_fuel(native_hooks::first_at, 4);
}

/// Where a hook names the session.
pub open spec fn session_id_in(p: Node) -> Option<Seq<char>> {
    first_of(
        json::field_at(p, "/session_id"@),
        first_of(
            json::field_at(p, "/sessionId"@),
            first_of(
                json::field_at(p, "/payload/session_id"@),
                first_of(
                    json::field_at(p, "/payload/sessionId"@),
                    first_of(
                        json::field_at(p, "/context/session_id"@),
                        json::field_at(p, "/context/sessionId"@),
                    ),
                ),
            ),
        ),
    )
}

proof fn lemma_session_id_in(p: Node)
    ensures
        native_hooks::first_at(p, native_hooks::session_id_paths()) == session_id_in(p),
{
    let s0 = native_hooks::session_id_paths();
    assert(s0[0] == "/session_id");
    let s1 = s0.drop_first();
    assert(s1[0] == "/sessionId");
    assert(s1[1] == "/payload/session_id");
    assert(s1[2] == "/payload/sessionId");
    assert(s1[3] == "/context/session_id");
    assert(s1[4] == "/context/sessionId");
    assert(s1[0] == "/sessionId");
    let s2 = s1.drop_first();
    assert(s2[0] == "/payload/session_id");
    assert(s2[1] == "/payload/sessionId");
    assert(s2[2] == "/context/session_id");
    assert(s2[3] == "/context/sessionId");
    assert(s2[0] == "/payload/session_id");
    let s3 = s2.drop_first();
    assert(s3[0] == "/payload/sessionId");
    assert(s3[1] == "/context/session_id");
    assert(s3[2] == "/context/sessionId");
    assert(s3[0] == "/payload/sessionId");
    let s4 = s3.drop_first();
    assert(s4[0] == "/context/session_id");
    assert(s4[1] == "/context/sessionId");
    assert(s4[0] == "/context/session_id");
    let s5 = s4.drop_first();
    assert(s5[0] == "/context/sessionId");
    assert(s5[0] == "/context/sessionId");
    let s6 = s5.drop_first();
    assert(s6.len() == 0);
    reveal_with_fuel(native_hooks::first_at, 7);
}

/// Where a hook names the turn.
pub open spec fn turn_id_in(p: Node) -> Option<Seq<char>> {
    first_of(
        json::field_at(p, "/turn_id"@),
        first_of(
            json::field_at(p, "/turnId"@),
            first_of(json::field_at(p, "/payload/turn_id"@), json::field_at(p, "/payload/turnId"@)),
        ),
    )
}

proof fn lemma_turn_id_in(p: Node)
    ensures
        native_hooks::first_at(p, native_hooks::turn_id_paths()) == turn_id_in(p),
{
    let s0 = native_hooks::turn_id_paths();
    assert(s0[0] == "/turn_id");
    let s1 = s0.drop_first();
    assert(s1[0] == "/turnId");
    assert(s1[1] == "/payload/turn_id");
    assert(s1[2] == "/payload/turnId");
    assert(s1[0] == "/turnId");
    let s2 = s1.drop_first();
    assert(s2[0] == "/payload/turn_id");
    assert(s2[1] == "/payload/turnId");
    assert(s2[0] == "/payload/turn_id");
    let s3 = s2.drop_first();
    assert(s3[0] == "/payload/turnId");
    assert(s3[0] == "/payload/turnId");
    let s4 = s3.drop_first();
    assert(s4.len() == 0);
    reveal_with_fuel(native_hooks::first_at, 5);
}

/// Where a hook names the tool.
pub open spec fn tool_name_in(p: Node) -> Option<Seq<char>> {
    first_of(
        json::field_at(p, "/tool_name"@),
        first_of(
            json::field_at(p, "/toolName"@),
            first_of(
                json::field_at(p, "/payload/tool_name"@),
                json::field_at(p, "/payload/toolName"@),
            ),
        ),
    )
}

proof fn lemma_tool_name_in(p: Node)
    ensures
        native_hooks::first_at(p, native_hooks::tool_name_paths()) == tool_name_in(p),
{
    let s0 = native_hooks::tool_name_paths();
    assert(s0[0] == "/tool_name");
    let s1 = s0.drop_first();
    assert(s1[0] == "/toolName");
    assert(s1[1] == "/payload/tool_name");
    assert(s1[2] == "/payload/toolName");
    assert(s1[0] == "/toolName");
    let s2 = s1.drop_first();
    assert(s2[0] == "/payload/tool_name");
    assert(s2[1] == "/payload/toolName");
    assert(s2[0] == "/payload/tool_name");
    let s3 = s2.drop_first();
    assert(s3[0] == "/payload/toolName");
    assert(s3[0] == "/payload/toolName");
    let s4 = s3.drop_first();
    assert(s4.len() == 0);
    reveal_with_fuel(native_hooks::first_at, 5);
}

/// Where a hook names the command.
pub open spec fn command_in(p: Node) -> Option<Seq<char>> {
    first_of(
        json::field_at(p, "/command"@),
        first_of(
            json::field_at(p, "/tool_input/command"@),
            first_of(
                json::field_at(p, "/payload/tool_input/command"@),
                json::field_at(p, "/payload/command"@),
            ),
        ),
    )
}

proof fn lemma_command_in(p: Node)
    ensures
        native_hooks::first_at(p, native_hooks::command_paths()) == command_in(p),
{
    let s0 = native_hooks::command_paths();
    assert(s0[0] == "/command");
    let s1 = s0.drop_first();
    assert(s1[0] == "/tool_input/command");
    assert(s1[1] == "/payload/tool_input/command");
    assert(s1[2] == "/payload/command");
    assert(s1[0] == "/tool_input/command");
    let s2 = s1.drop_first();
    assert(s2[0] == "/payload/tool_input/command");
    assert(s2[1] == "/payload/command");
    assert(s2[0] == "/payload/tool_input/command");
    let s3 = s2.drop_first();
    assert(s3[0] == "/payload/command");
    assert(s3[0] == "/payload/command");
    let s4 = s3.drop_first();
    assert(s4.len() == 0);
    reveal_with_fuel(native_hooks::first_at, 5);
}

/// Where a hook gives the prompt.
pub open spec fn prompt_in(p: Node) -> Option<Seq<char>> {
    first_of(json::field_at(p, "/prompt"@), json::field_at(p, "/payload/prompt"@))
}

proof fn lemma_prompt_in(p: Node)
    ensures
        native_hooks::first_at(p, native_hooks::prompt_paths()) == prompt_in(p),
{
    let s0 = native_hooks::prompt_paths();
    assert(s0[0] == "/prompt");
    let s1 = s0.drop_first();
    assert(s1[0] == "/payload/prompt");
    assert(s1[0] == "/payload/prompt");
    let s2 = s1.drop_first();
    assert(s2.len() == 0);
    reveal_with_fuel(native_hooks::first_at, 3);
}

/// Where a hook names the model.
pub open spec fn model_in(p: Node) -> Option<Seq<char>> {
    first_of(json::field_at(p, "/model"@), json::field_at(p, "/payload/model"@))
}

proof fn lemma_model_in(p: Node)
    ensures
        native_hooks::first_at(p, native_hooks::model_paths()) == model_in(p),
{
    let s0 = native_hooks::model_paths();
    assert(s0[0] == "/model");
    let s1 = s0.drop_first();
    assert(s1[0] == "/payload/model");
    assert(s1[0] == "/payload/model");
    let s2 = s1.drop_first();
    assert(s2.len() == 0);
    reveal_with_fuel(native_hooks::first_at, 3);
}

/// Where a hook says what a session comes from.
pub open spec fn session_source_in(p: Node) -> Option<Seq<char>> {
    first_of(json::field_at(p, "/payload/source"@), json::field_at(p, "/source"@))
}

proof fn lemma_session_source_in(p: Node)
    ensures
        native_hooks::first_at(p, native_hooks::session_source_paths()) == session_source_in(p),
{
    let s0 = native_hooks::session_source_paths();
    assert(s0[0] == "/payload/source");
    let s1 = s0.drop_first();
    assert(s1[0] == "/source");
    assert(s1[0] == "/source");
    let s2 = s1.drop_first();
    assert(s2.len() == 0);
    reveal_with_fuel(native_hooks::first_at, 3);
}

/// Where metadata names the project.
pub open spec fn meta_project_in(p: Node) -> Option<Seq<char>> {
    first_of(
        json::field_at(p, "/project"@),
        first_of(
            json::field_at(p, "/project_name"@),
            first_of(
                json::field_at(p, "/name"@),
                first_of(json::field_at(p, "/slug"@), json::field_at(p, "/id"@)),
            ),
        ),
    )
}

proof fn lemma_meta_project_in(p: Node)
    ensures
        native_hooks::first_at(p, native_hooks::meta_project_paths()) == meta_project_in(p),
{
    let s0 = native_hooks::meta_project_paths();
    assert(s0[0] == "/project");
    let s1 = s0.drop_first();
    assert(s1[0] == "/project_name");
    assert(s1[1] == "/name");
    assert(s1[2] == "/slug");
    assert(s1[3] == "/id");
    assert(s1[0] == "/project_name");
    let s2 = s1.drop_first();
    assert(s2[0] == "/name");
    assert(s2[1] == "/slug");
    assert(s2[2] == "/id");
    assert(s2[0] == "/name");
    let s3 = s2.drop_first();
    assert(s3[0] == "/slug");
    assert(s3[1] == "/id");
    assert(s3[0] == "/slug");
    let s4 = s3.drop_first();
    assert(s4[0] == "/id");
    assert(s4[0] == "/id");
    let s5 = s4.drop_first();
    assert(s5.len() == 0);
    reveal_with_fuel(native_hooks::first_at, 6);
}

/// Where metadata names the repository.
pub open spec fn meta_repo_in(p: Node) -> Option<Seq<char>> {
    first_of(
        json::field_at(p, "/repo_name"@),
        first_of(
            json::field_at(p, "/repo"@),
            first_of(
                json::field_at(p, "/project"@),
                first_of(json::field_at(p, "/name"@), json::field_at(p, "/slug"@)),
            ),
        ),
    )
}

proof fn lemma_meta_repo_in(p: Node)
    ensures
        native_hooks::first_at(p, native_hooks::meta_repo_paths()) == meta_repo_in(p),
{
    let s0 = native_hooks::meta_repo_paths();
    assert(s0[0] == "/repo_name");
    let s1 = s0.drop_first();
    assert(s1[0] == "/repo");
    assert(s1[1] == "/project");
    assert(s1[2] == "/name");
    assert(s1[3] == "/slug");
    assert(s1[0] == "/repo");
    let s2 = s1.drop_first();
    assert(s2[0] == "/project");
    assert(s2[1] == "/name");
    assert(s2[2] == "/slug");
    assert(s2[0] == "/project");
    let s3 = s2.drop_first();
    assert(s3[0] == "/name");
    assert(s3[1] == "/slug");
    assert(s3[0] == "/name");
    let s4 = s3.drop_first();
    assert(s4[0] == "/slug");
    assert(s4[0] == "/slug");
    let s5 = s4.drop_first();
    assert(s5.len() == 0);
    reveal_with_fuel(native_hooks::first_at, 6);
}

proof fn lemma_payload_provider(f: HookFacts, p: Node)
    ensures
        json::member(native_hooks::hook_payload(f, p), "provider"@) == Some(Node::Text(f.provider)),
{
    broadcast use {json_laws::group_members, json_laws::group_optional_members};

    reveal_strlit("provider");
    reveal_strlit("source");
    reveal_strlit("tool");
    reveal_strlit("agent_name");
    reveal_strlit("event_name");
    reveal_strlit("normalized_event");
    reveal_strlit("context");
    reveal_strlit("event_payload");
    reveal_strlit("payload");
    reveal_strlit("directory");
    reveal_strlit("repo_path");
    reveal_strlit("worktree_path");
    reveal_strlit("repo_name");
    reveal_strlit("project");
    reveal_strlit("session_id");
    reveal_strlit("turn_id");
    reveal_strlit("tool_name");
    reveal_strlit("command");
    reveal_strlit("prompt");
    reveal_strlit("model");
    reveal_strlit("session_source");
    reveal_strlit("project_identity");
    reveal_strlit("status");
    assert("provider"@.len() == 8);
    assert("source"@.len() == 6);
    assert("tool"@.len() == 4);
    assert("agent_name"@.len() == 10);
    assert("event_name"@.len() == 10);
    assert("normalized_event"@.len() == 16);
    assert("context"@.len() == 7);
    assert("event_payload"@.len() == 13);
    assert("payload"@.len() == 7);
    assert("directory"@.len() == 9);
    assert("repo_path"@.len() == 9);
    assert("worktree_path"@.len() == 13);
    assert("repo_name"@.len() == 9);
    assert("project"@.len() == 7);
    assert("session_id"@.len() == 10);
    assert("turn_id"@.len() == 7);
    assert("tool_name"@.len() == 9);
    assert("command"@.len() == 7);
    assert("prompt"@.len() == 6);
    assert("model"@.len() == 5);
    assert("session_source"@.len() == 14);
    assert("project_identity"@.len() == 16);
    assert("status"@.len() == 6);
}

proof fn lemma_payload_source(f: HookFacts, p: Node)
    ensures
        json::member(native_hooks::hook_payload(f, p), "source"@) == Some(Node::Text(f.provider)),
{
    broadcast use {json_laws::group_members, json_laws::group_optional_members};

    reveal_strlit("source");
    reveal_strlit("provider");
    reveal_strlit("tool");
    reveal_strlit("agent_name");
    reveal_strlit("event_name");
    reveal_strlit("normalized_event");
    reveal_strlit("context");
    reveal_strlit("event_payload");
    reveal_strlit("payload");
    reveal_strlit("directory");
    reveal_strlit("repo_path");
    reveal_strlit("worktree_path");
    reveal_strlit("repo_name");
    reveal_strlit("project");
    reveal_strlit("session_id");
    reveal_strlit("turn_id");
    reveal_strlit("tool_name");
    reveal_strlit("command");
    reveal_strlit("prompt");
    reveal_strlit("model");
    reveal_strlit("session_source");
    reveal_strlit("project_identity");
    reveal_strlit("status");
    assert("source"@.len() == 6);
    assert("source"@[0] == 's');
    assert("source"@[1] == 'o');
    assert("provider"@.len() == 8);
    assert("tool"@.len() == 4);
    assert("agent_name"@.len() == 10);
    assert("event_name"@.len() == 10);
    assert("normalized_event"@.len() == 16);
    assert("context"@.len() == 7);
    assert("event_payload"@.len() == 13);
    assert("payload"@.len() == 7);
    assert("directory"@.len() == 9);
    assert("repo_path"@.len() == 9);
    assert("worktree_path"@.len() == 13);
    assert("repo_name"@.len() == 9);
    assert("project"@.len() == 7);
    assert("session_id"@.len() == 10);
    assert("turn_id"@.len() == 7);
    assert("tool_name"@.len() == 9);
    assert("command"@.len() == 7);
    assert("prompt"@.len() == 6);
    assert("prompt"@[0] == 'p');
    assert("model"@.len() == 5);
    assert("session_source"@.len() == 14);
    assert("project_identity"@.len() == 16);
    assert("status"@.len() == 6);
    assert("status"@[1] == 't');
}

proof fn lemma_payload_tool(f: HookFacts, p: Node)
    ensures
        json::member(native_hooks::hook_payload(f, p), "tool"@) == Some(Node::Text(f.provider)),
{
    broadcast use {json_laws::group_members, json_laws::group_optional_members};

    reveal_strlit("tool");
    reveal_strlit("provider");
    reveal_strlit("source");
    reveal_strlit("agent_name");
    reveal_strlit("event_name");
    reveal_strlit("normalized_event");
    reveal_strlit("context");
    reveal_strlit("event_payload");
    reveal_strlit("payload");
    reveal_strlit("directory");
    reveal_strlit("repo_path");
    reveal_strlit("worktree_path");
    reveal_strlit("repo_name");
    reveal_strlit("project");
    reveal_strlit("session_id");
    reveal_strlit("turn_id");
    reveal_strlit("tool_name");
    reveal_strlit("command");
    reveal_strlit("prompt");
    reveal_strlit("model");
    reveal_strlit("session_source");
    reveal_strlit("project_identity");
    reveal_strlit("status");
    assert("tool"@.len() == 4);
    assert("provider"@.len() == 8);
    assert("source"@.len() == 6);
    assert("agent_name"@.len() == 10);
    assert("event_name"@.len() == 10);
    assert("normalized_event"@.len() == 16);
    assert("context"@.len() == 7);
    assert("event_payload"@.len() == 13);
    assert("payload"@.len() == 7);
    assert("directory"@.len() == 9);
    assert("repo_path"@.len() == 9);
    assert("worktree_path"@.len() == 13);
    assert("repo_name"@.len() == 9);
    assert("project"@.len() == 7);
    assert("session_id"@.len() == 10);
    assert("turn_id"@.len() == 7);
    assert("tool_name"@.len() == 9);
    assert("command"@.len() == 7);
    assert("prompt"@.len() == 6);
    assert("model"@.len() == 5);
    assert("session_source"@.len() == 14);
    assert("project_identity"@.len() == 16);
    assert("status"@.len() == 6);
}

proof fn lemma_payload_agent_name(f: HookFacts, p: Node)
    ensures
        json::member(
            native_hooks::hook_payload(f, p),
            "agent_name"@,
        ) == Some(Node::Text(f.provider)),
{
    broadcast use {json_laws::group_members, json_laws::group_optional_members};

    reveal_strlit("agent_name");
    reveal_strlit("provider");
    reveal_strlit("source");
    reveal_strlit("tool");
    reveal_strlit("event_name");
    reveal_strlit("normalized_event");
    reveal_strlit("context");
    reveal_strlit("event_payload");
    reveal_strlit("payload");
    reveal_strlit("directory");
    reveal_strlit("repo_path");
    reveal_strlit("worktree_path");
    reveal_strlit("repo_name");
    reveal_strlit("project");
    reveal_strlit("session_id");
    reveal_strlit("turn_id");
    reveal_strlit("tool_name");
    reveal_strlit("command");
    reveal_strlit("prompt");
    reveal_strlit("model");
    reveal_strlit("session_source");
    reveal_strlit("project_identity");
    reveal_strlit("status");
    assert("agent_name"@.len() == 10);
    assert("agent_name"@[0] == 'a');
    assert("provider"@.len() == 8);
    assert("source"@.len() == 6);
    assert("tool"@.len() == 4);
    assert("event_name"@.len() == 10);
    assert("event_name"@[0] == 'e');
    assert("normalized_event"@.len() == 16);
    assert("context"@.len() == 7);
    assert("event_payload"@.len() == 13);
    assert("payload"@.len() == 7);
    assert("directory"@.len() == 9);
    assert("repo_path"@.len() == 9);
    assert("worktree_path"@.len() == 13);
    assert("repo_name"@.len() == 9);
    assert("project"@.len() == 7);
    assert("session_id"@.len() == 10);
    assert("session_id"@[0] == 's');
    assert("turn_id"@.len() == 7);
    assert("tool_name"@.len() == 9);
    assert("command"@.len() == 7);
    assert("prompt"@.len() == 6);
    assert("model"@.len() == 5);
    assert("session_source"@.len() == 14);
    assert("project_identity"@.len() == 16);
    assert("status"@.len() == 6);
}

proof fn lemma_payload_event_name(f: HookFacts, p: Node)
    ensures
        json::member(
            native_hooks::hook_payload(f, p),
            "event_name"@,
        ) == Some(Node::Text(f.event_name)),
{
    broadcast use {json_laws::group_members, json_laws::group_optional_members};

    reveal_strlit("event_name");
    reveal_strlit("provider");
    reveal_strlit("source");
    reveal_strlit("tool");
    reveal_strlit("agent_name");
    reveal_strlit("normalized_event");
    reveal_strlit("context");
    reveal_strlit("event_payload");
    reveal_strlit("payload");
    reveal_strlit("directory");
    reveal_strlit("repo_path");
    reveal_strlit("worktree_path");
    reveal_strlit("repo_name");
    reveal_strlit("project");
    reveal_strlit("session_id");
    reveal_strlit("turn_id");
    reveal_strlit("tool_name");
    reveal_strlit("command");
    reveal_strlit("prompt");
    reveal_strlit("model");
    reveal_strlit("session_source");
    reveal_strlit("project_identity");
    reveal_strlit("status");
    assert("event_name"@.len() == 10);
    assert("event_name"@[0] == 'e');
    assert("provider"@.len() == 8);
    assert("source"@.len() == 6);
    assert("tool"@.len() == 4);
    assert("agent_name"@.len() == 10);
    assert("agent_name"@[0] == 'a');
    assert("normalized_event"@.len() == 16);
    assert("context"@.len() == 7);
    assert("event_payload"@.len() == 13);
    assert("payload"@.len() == 7);
    assert("directory"@.len() == 9);
    assert("repo_path"@.len() == 9);
    assert("worktree_path"@.len() == 13);
    assert("repo_name"@.len() == 9);
    assert("project"@.len() == 7);
    assert("session_id"@.len() == 10);
    assert("session_id"@[0] == 's');
    assert("turn_id"@.len() == 7);
    assert("tool_name"@.len() == 9);
    assert("command"@.len() == 7);
    assert("prompt"@.len() == 6);
    assert("model"@.len() == 5);
    assert("session_source"@.len() == 14);
    assert("project_identity"@.len() == 16);
    assert("status"@.len() == 6);
}

proof fn lemma_payload_normalized_event(f: HookFacts, p: Node)
    ensures
        json::member(
            native_hooks::hook_payload(f, p),
            "normalized_event"@,
        ) == Some(Node::Text(f.phase)),
{
    broadcast use {json_laws::group_members, json_laws::group_optional_members};

    reveal_strlit("normalized_event");
    reveal_strlit("provider");
    reveal_strlit("source");
    reveal_strlit("tool");
    reveal_strlit("agent_name");
    reveal_strlit("event_name");
    reveal_strlit("context");
    reveal_strlit("event_payload");
    reveal_strlit("payload");
    reveal_strlit("directory");
    reveal_strlit("repo_path");
    reveal_strlit("worktree_path");
    reveal_strlit("repo_name");
    reveal_strlit("project");
    reveal_strlit("session_id");
    reveal_strlit("turn_id");
    reveal_strlit("tool_name");
    reveal_strlit("command");
    reveal_strlit("prompt");
    reveal_strlit("model");
    reveal_strlit("session_source");
    reveal_strlit("project_identity");
    reveal_strlit("status");
    assert("normalized_event"@.len() == 16);
    assert("normalized_event"@[0] == 'n');
    assert("provider"@.len() == 8);
    assert("source"@.len() == 6);
    assert("tool"@.len() == 4);
    assert("agent_name"@.len() == 10);
    assert("event_name"@.len() == 10);
    assert("context"@.len() == 7);
    assert("event_payload"@.len() == 13);
    assert("payload"@.len() == 7);
    assert("directory"@.len() == 9);
    assert("repo_path"@.len() == 9);
    assert("worktree_path"@.len() == 13);
    assert("repo_name"@.len() == 9);
    assert("project"@.len() == 7);
    assert("session_id"@.len() == 10);
    assert("turn_id"@.len() == 7);
    assert("tool_name"@.len() == 9);
    assert("command"@.len() == 7);
    assert("prompt"@.len() == 6);
    assert("model"@.len() == 5);
    assert("session_source"@.len() == 14);
    assert("project_identity"@.len() == 16);
    assert("project_identity"@[0] == 'p');
    assert("status"@.len() == 6);
}

proof fn lemma_payload_context(f: HookFacts, p: Node)
    ensures
        json::member(
            native_hooks::hook_payload(f, p),
            "context"@,
        ) == Some(native_hooks::hook_context(f)),
{
    broadcast use {json_laws::group_members, json_laws::group_optional_members};

    reveal_strlit("context");
    reveal_strlit("provider");
    reveal_strlit("source");
    reveal_strlit("tool");
    reveal_strlit("agent_name");
    reveal_strlit("event_name");
    reveal_strlit("normalized_event");
    reveal_strlit("event_payload");
    reveal_strlit("payload");
    reveal_strlit("directory");
    reveal_strlit("repo_path");
    reveal_strlit("worktree_path");
    reveal_strlit("repo_name");
    reveal_strlit("project");
    reveal_strlit("session_id");
    reveal_strlit("turn_id");
    reveal_strlit("tool_name");
    reveal_strlit("command");
    reveal_strlit("prompt");
    reveal_strlit("model");
    reveal_strlit("session_source");
    reveal_strlit("project_identity");
    reveal_strlit("status");
    assert("context"@.len() == 7);
    assert("context"@[0] == 'c');
    assert("context"@[2] == 'n');
    assert("provider"@.len() == 8);
    assert("source"@.len() == 6);
    assert("tool"@.len() == 4);
    assert("agent_name"@.len() == 10);
    assert("event_name"@.len() == 10);
    assert("normalized_event"@.len() == 16);
    assert("event_payload"@.len() == 13);
    assert("payload"@.len() == 7);
    assert("payload"@[0] == 'p');
    assert("directory"@.len() == 9);
    assert("repo_path"@.len() == 9);
    assert("worktree_path"@.len() == 13);
    assert("repo_name"@.len() == 9);
    assert("project"@.len() == 7);
    assert("project"@[0] == 'p');
    assert("session_id"@.len() == 10);
    assert("turn_id"@.len() == 7);
    assert("turn_id"@[0] == 't');
    assert("tool_name"@.len() == 9);
    assert("command"@.len() == 7);
    assert("command"@[2] == 'm');
    assert("prompt"@.len() == 6);
    assert("model"@.len() == 5);
    assert("session_source"@.len() == 14);
    assert("project_identity"@.len() == 16);
    assert("status"@.len() == 6);
}

proof fn lemma_payload_event_payload(f: HookFacts, p: Node)
    ensures
        json::member(
            native_hooks::hook_payload(f, p),
            "event_payload"@,
        ) == Some(native_hooks::inner_payload(p)),
{
    broadcast use {json_laws::group_members, json_laws::group_optional_members};

    reveal_strlit("event_payload");
    reveal_strlit("provider");
    reveal_strlit("source");
    reveal_strlit("tool");
    reveal_strlit("agent_name");
    reveal_strlit("event_name");
    reveal_strlit("normalized_event");
    reveal_strlit("context");
    reveal_strlit("payload");
    reveal_strlit("directory");
    reveal_strlit("repo_path");
    reveal_strlit("worktree_path");
    reveal_strlit("repo_name");
    reveal_strlit("project");
    reveal_strlit("session_id");
    reveal_strlit("turn_id");
    reveal_strlit("tool_name");
    reveal_strlit("command");
    reveal_strlit("prompt");
    reveal_strlit("model");
    reveal_strlit("session_source");
    reveal_strlit("project_identity");
    reveal_strlit("status");
    assert("event_payload"@.len() == 13);
    assert("event_payload"@[0] == 'e');
    assert("provider"@.len() == 8);
    assert("source"@.len() == 6);
    assert("tool"@.len() == 4);
    assert("agent_name"@.len() == 10);
    assert("event_name"@.len() == 10);
    assert("normalized_event"@.len() == 16);
    assert("context"@.len() == 7);
    assert("payload"@.len() == 7);
    assert("directory"@.len() == 9);
    assert("repo_path"@.len() == 9);
    assert("worktree_path"@.len() == 13);
    assert("worktree_path"@[0] == 'w');
    assert("repo_name"@.len() == 9);
    assert("project"@.len() == 7);
    assert("session_id"@.len() == 10);
    assert("turn_id"@.len() == 7);
    assert("tool_name"@.len() == 9);
    assert("command"@.len() == 7);
    assert("prompt"@.len() == 6);
    assert("model"@.len() == 5);
    assert("session_source"@.len() == 14);
    assert("project_identity"@.len() == 16);
    assert("status"@.len() == 6);
}

proof fn lemma_payload_payload(f: HookFacts, p: Node)
    ensures
        json::member(native_hooks::hook_payload(f, p), "payload"@) == Some(p),
{
    broadcast use {json_laws::group_members, json_laws::group_optional_members};

    reveal_strlit("payload");
    reveal_strlit("provider");
    reveal_strlit("source");
    reveal_strlit("tool");
    reveal_strlit("agent_name");
    reveal_strlit("event_name");
    reveal_strlit("normalized_event");
    reveal_strlit("context");
    reveal_strlit("event_payload");
    reveal_strlit("directory");
    reveal_strlit("repo_path");
    reveal_strlit("worktree_path");
    reveal_strlit("repo_name");
    reveal_strlit("project");
    reveal_strlit("session_id");
    reveal_strlit("turn_id");
    reveal_strlit("tool_name");
    reveal_strlit("command");
    reveal_strlit("prompt");
    reveal_strlit("model");
    reveal_strlit("session_source");
    reveal_strlit("project_identity");
    reveal_strlit("status");
    assert("payload"@.len() == 7);
    assert("payload"@[0] == 'p');
    assert("payload"@[1] == 'a');
    assert("provider"@.len() == 8);
    assert("source"@.len() == 6);
    assert("tool"@.len() == 4);
    assert("agent_name"@.len() == 10);
    assert("event_name"@.len() == 10);
    assert("normalized_event"@.len() == 16);
    assert("context"@.len() == 7);
    assert("context"@[0] == 'c');
    assert("event_payload"@.len() == 13);
    assert("directory"@.len() == 9);
    assert("repo_path"@.len() == 9);
    assert("worktree_path"@.len() == 13);
    assert("repo_name"@.len() == 9);
    assert("project"@.len() == 7);
    assert("project"@[1] == 'r');
    assert("session_id"@.len() == 10);
    assert("turn_id"@.len() == 7);
    assert("turn_id"@[0] == 't');
    assert("tool_name"@.len() == 9);
    assert("command"@.len() == 7);
    assert("command"@[0] == 'c');
    assert("prompt"@.len() == 6);
    assert("model"@.len() == 5);
    assert("session_source"@.len() == 14);
    assert("project_identity"@.len() == 16);
    assert("status"@.len() == 6);
}

proof fn lemma_payload_directory(f: HookFacts, p: Node)
    ensures
        json::member(native_hooks::hook_payload(f, p), "directory"@) == text_node(f.directory),
{
    broadcast use {json_laws::group_members, json_laws::group_optional_members};

    reveal_strlit("directory");
    reveal_strlit("provider");
    reveal_strlit("source");
    reveal_strlit("tool");
    reveal_strlit("agent_name");
    reveal_strlit("event_name");
    reveal_strlit("normalized_event");
    reveal_strlit("context");
    reveal_strlit("event_payload");
    reveal_strlit("payload");
    reveal_strlit("repo_path");
    reveal_strlit("worktree_path");
    reveal_strlit("repo_name");
    reveal_strlit("project");
    reveal_strlit("session_id");
    reveal_strlit("turn_id");
    reveal_strlit("tool_name");
    reveal_strlit("command");
    reveal_strlit("prompt");
    reveal_strlit("model");
    reveal_strlit("session_source");
    reveal_strlit("project_identity");
    reveal_strlit("status");
    assert("directory"@.len() == 9);
    assert("directory"@[0] == 'd');
    assert("provider"@.len() == 8);
    assert("source"@.len() == 6);
    assert("tool"@.len() == 4);
    assert("agent_name"@.len() == 10);
    assert("event_name"@.len() == 10);
    assert("normalized_event"@.len() == 16);
    assert("context"@.len() == 7);
    assert("event_payload"@.len() == 13);
    assert("payload"@.len() == 7);
    assert("repo_path"@.len() == 9);
    assert("repo_path"@[0] == 'r');
    assert("worktree_path"@.len() == 13);
    assert("repo_name"@.len() == 9);
    assert("repo_name"@[0] == 'r');
    assert("project"@.len() == 7);
    assert("session_id"@.len() == 10);
    assert("turn_id"@.len() == 7);
    assert("tool_name"@.len() == 9);
    assert("tool_name"@[0] == 't');
    assert("command"@.len() == 7);
    assert("prompt"@.len() == 6);
    assert("model"@.len() == 5);
    assert("session_source"@.len() == 14);
    assert("project_identity"@.len() == 16);
    assert("status"@.len() == 6);
}

proof fn lemma_payload_repo_path(f: HookFacts, p: Node)
    ensures
        json::member(native_hooks::hook_payload(f, p), "repo_path"@) == text_node(f.repo_path),
{
    broadcast use {json_laws::group_members, json_laws::group_optional_members};

    reveal_strlit("repo_path");
    reveal_strlit("provider");
    reveal_strlit("source");
    reveal_strlit("tool");
    reveal_strlit("agent_name");
    reveal_strlit("event_name");
    reveal_strlit("normalized_event");
    reveal_strlit("context");
    reveal_strlit("event_payload");
    reveal_strlit("payload");
    reveal_strlit("directory");
    reveal_strlit("worktree_path");
    reveal_strlit("repo_name");
    reveal_strlit("project");
    reveal_strlit("session_id");
    reveal_strlit("turn_id");
    reveal_strlit("tool_name");
    reveal_strlit("command");
    reveal_strlit("prompt");
    reveal_strlit("model");
    reveal_strlit("session_source");
    reveal_strlit("project_identity");
    reveal_strlit("status");
    assert("repo_path"@.len() == 9);
    assert("repo_path"@[0] == 'r');
    assert("repo_path"@[5] == 'p');
    assert("provider"@.len() == 8);
    assert("source"@.len() == 6);
    assert("tool"@.len() == 4);
    assert("agent_name"@.len() == 10);
    assert("event_name"@.len() == 10);
    assert("normalized_event"@.len() == 16);
    assert("context"@.len() == 7);
    assert("event_payload"@.len() == 13);
    assert("payload"@.len() == 7);
    assert("directory"@.len() == 9);
    assert("directory"@[0] == 'd');
    assert("worktree_path"@.len() == 13);
    assert("repo_name"@.len() == 9);
    assert("repo_name"@[5] == 'n');
    assert("project"@.len() == 7);
    assert("session_id"@.len() == 10);
    assert("turn_id"@.len() == 7);
    assert("tool_name"@.len() == 9);
    assert("tool_name"@[0] == 't');
    assert("command"@.len() == 7);
    assert("prompt"@.len() == 6);
    assert("model"@.len() == 5);
    assert("session_source"@.len() == 14);
    assert("project_identity"@.len() == 16);
    assert("status"@.len() == 6);
}

proof fn lemma_payload_worktree_path(f: HookFacts, p: Node)
    ensures
        json::member(
            native_hooks::hook_payload(f, p),
            "worktree_path"@,
        ) == text_node(f.worktree_path),
{
    broadcast use {json_laws::group_members, json_laws::group_optional_members};

    reveal_strlit("worktree_path");
    reveal_strlit("provider");
    reveal_strlit("source");
    reveal_strlit("tool");
    reveal_strlit("agent_name");
    reveal_strlit("event_name");
    reveal_strlit("normalized_event");
    reveal_strlit("context");
    reveal_strlit("event_payload");
    reveal_strlit("payload");
    reveal_strlit("directory");
    reveal_strlit("repo_path");
    reveal_strlit("repo_name");
    reveal_strlit("project");
    reveal_strlit("session_id");
    reveal_strlit("turn_id");
    reveal_strlit("tool_name");
    reveal_strlit("command");
    reveal_strlit("prompt");
    reveal_strlit("model");
    reveal_strlit("session_source");
    reveal_strlit("project_identity");
    reveal_strlit("status");
    assert("worktree_path"@.len() == 13);
    assert("worktree_path"@[0] == 'w');
    assert("provider"@.len() == 8);
    assert("source"@.len() == 6);
    assert("tool"@.len() == 4);
    assert("agent_name"@.len() == 10);
    assert("event_name"@.len() == 10);
    assert("normalized_event"@.len() == 16);
    assert("context"@.len() == 7);
    assert("event_payload"@.len() == 13);
    assert("event_payload"@[0] == 'e');
    assert("payload"@.len() == 7);
    assert("directory"@.len() == 9);
    assert("repo_path"@.len() == 9);
    assert("repo_name"@.len() == 9);
    assert("project"@.len() == 7);
    assert("session_id"@.len() == 10);
    assert("turn_id"@.len() == 7);
    assert("tool_name"@.len() == 9);
    assert("command"@.len() == 7);
    assert("prompt"@.len() == 6);
    assert("model"@.len() == 5);
    assert("session_source"@.len() == 14);
    assert("project_identity"@.len() == 16);
    assert("status"@.len() == 6);
}

proof fn lemma_payload_repo_name(f: HookFacts, p: Node)
    ensures
        json::member(native_hooks::hook_payload(f, p), "repo_name"@) == text_node(f.repo_name),
{
    broadcast use {json_laws::group_members, json_laws::group_optional_members};

    reveal_strlit("repo_name");
    reveal_strlit("provider");
    reveal_strlit("source");
    reveal_strlit("tool");
    reveal_strlit("agent_name");
    reveal_strlit("event_name");
    reveal_strlit("normalized_event");
    reveal_strlit("context");
    reveal_strlit("event_payload");
    reveal_strlit("payload");
    reveal_strlit("directory");
    reveal_strlit("repo_path");
    reveal_strlit("worktree_path");
    reveal_strlit("project");
    reveal_strlit("session_id");
    reveal_strlit("turn_id");
    reveal_strlit("tool_name");
    reveal_strlit("command");
    reveal_strlit("prompt");
    reveal_strlit("model");
    reveal_strlit("session_source");
    reveal_strlit("project_identity");
    reveal_strlit("status");
    assert("repo_name"@.len() == 9);
    assert("repo_name"@[0] == 'r');
    assert("repo_name"@[5] == 'n');
    assert("provider"@.len() == 8);
    assert("source"@.len() == 6);
    assert("tool"@.len() == 4);
    assert("agent_name"@.len() == 10);
    assert("event_name"@.len() == 10);
    assert("normalized_event"@.len() == 16);
    assert("context"@.len() == 7);
    assert("event_payload"@.len() == 13);
    assert("payload"@.len() == 7);
    assert("directory"@.len() == 9);
    assert("directory"@[0] == 'd');
    assert("repo_path"@.len() == 9);
    assert("repo_path"@[5] == 'p');
    assert("worktree_path"@.len() == 13);
    assert("project"@.len() == 7);
    assert("session_id"@.len() == 10);
    assert("turn_id"@.len() == 7);
    assert("tool_name"@.len() == 9);
    assert("tool_name"@[0] == 't');
    assert("command"@.len() == 7);
    assert("prompt"@.len() == 6);
    assert("model"@.len() == 5);
    assert("session_source"@.len() == 14);
    assert("project_identity"@.len() == 16);
    assert("status"@.len() == 6);
}

proof fn lemma_payload_project(f: HookFacts, p: Node)
    ensures
        json::member(native_hooks::hook_payload(f, p), "project"@) == text_node(f.project),
{
    broadcast use {json_laws::group_members, json_laws::group_optional_members};

    reveal_strlit("project");
    reveal_strlit("provider");
    reveal_strlit("source");
    reveal_strlit("tool");
    reveal_strlit("agent_name");
    reveal_strlit("event_name");
    reveal_strlit("normalized_event");
    reveal_strlit("context");
    reveal_strlit("event_payload");
    reveal_strlit("payload");
    reveal_strlit("directory");
    reveal_strlit("repo_path");
    reveal_strlit("worktree_path");
    reveal_strlit("repo_name");
    reveal_strlit("session_id");
    reveal_strlit("turn_id");
    reveal_strlit("tool_name");
    reveal_strlit("command");
    reveal_strlit("prompt");
    reveal_strlit("model");
    reveal_strlit("session_source");
    reveal_strlit("project_identity");
    reveal_strlit("status");
    assert("project"@.len() == 7);
    assert("project"@[0] == 'p');
    assert("project"@[1] == 'r');
    assert("provider"@.len() == 8);
    assert("source"@.len() == 6);
    assert("tool"@.len() == 4);
    assert("agent_name"@.len() == 10);
    assert("event_name"@.len() == 10);
    assert("normalized_event"@.len() == 16);
    assert("context"@.len() == 7);
    assert("context"@[0] == 'c');
    assert("event_payload"@.len() == 13);
    assert("payload"@.len() == 7);
    assert("payload"@[1] == 'a');
    assert("directory"@.len() == 9);
    assert("repo_path"@.len() == 9);
    assert("worktree_path"@.len() == 13);
    assert("repo_name"@.len() == 9);
    assert("session_id"@.len() == 10);
    assert("turn_id"@.len() == 7);
    assert("turn_id"@[0] == 't');
    assert("tool_name"@.len() == 9);
    assert("command"@.len() == 7);
    assert("command"@[0] == 'c');
    assert("prompt"@.len() == 6);
    assert("model"@.len() == 5);
    assert("session_source"@.len() == 14);
    assert("project_identity"@.len() == 16);
    assert("status"@.len() == 6);
}

proof fn lemma_payload_session_id(f: HookFacts, p: Node)
    ensures
        json::member(native_hooks::hook_payload(f, p), "session_id"@) == text_node(f.session_id),
{
    broadcast use {json_laws::group_members, json_laws::group_optional_members};

    reveal_strlit("session_id");
    reveal_strlit("provider");
    reveal_strlit("source");
    reveal_strlit("tool");
    reveal_strlit("agent_name");
    reveal_strlit("event_name");
    reveal_strlit("normalized_event");
    reveal_strlit("context");
    reveal_strlit("event_payload");
    reveal_strlit("payload");
    reveal_strlit("directory");
    reveal_strlit("repo_path");
    reveal_strlit("worktree_path");
    reveal_strlit("repo_name");
    reveal_strlit("project");
    reveal_strlit("turn_id");
    reveal_strlit("tool_name");
    reveal_strlit("command");
    reveal_strlit("prompt");
    reveal_strlit("model");
    reveal_strlit("session_source");
    reveal_strlit("project_identity");
    reveal_strlit("status");
    assert("session_id"@.len() == 10);
    assert("session_id"@[0] == 's');
    assert("provider"@.len() == 8);
    assert("source"@.len() == 6);
    assert("tool"@.len() == 4);
    assert("agent_name"@.len() == 10);
    assert("agent_name"@[0] == 'a');
    assert("event_name"@.len() == 10);
    assert("event_name"@[0] == 'e');
    assert("normalized_event"@.len() == 16);
    assert("context"@.len() == 7);
    assert("event_payload"@.len() == 13);
    assert("payload"@.len() == 7);
    assert("directory"@.len() == 9);
    assert("repo_path"@.len() == 9);
    assert("worktree_path"@.len() == 13);
    assert("repo_name"@.len() == 9);
    assert("project"@.len() == 7);
    assert("turn_id"@.len() == 7);
    assert("tool_name"@.len() == 9);
    assert("command"@.len() == 7);
    assert("prompt"@.len() == 6);
    assert("model"@.len() == 5);
    assert("session_source"@.len() == 14);
    assert("project_identity"@.len() == 16);
    assert("status"@.len() == 6);
}

proof fn lemma_payload_turn_id(f: HookFacts, p: Node)
    ensures
        json::member(native_hooks::hook_payload(f, p), "turn_id"@) == text_node(f.turn_id),
{
    broadcast use {json_laws::group_members, json_laws::group_optional_members};

    reveal_strlit("turn_id");
    reveal_strlit("provider");
    reveal_strlit("source");
    reveal_strlit("tool");
    reveal_strlit("agent_name");
    reveal_strlit("event_name");
    reveal_strlit("normalized_event");
    reveal_strlit("context");
    reveal_strlit("event_payload");
    reveal_strlit("payload");
    reveal_strlit("directory");
    reveal_strlit("repo_path");
    reveal_strlit("worktree_path");
    reveal_strlit("repo_name");
    reveal_strlit("project");
    reveal_strlit("session_id");
    reveal_strlit("tool_name");
    reveal_strlit("command");
    reveal_strlit("prompt");
    reveal_strlit("model");
    reveal_strlit("session_source");
    reveal_strlit("project_identity");
    reveal_strlit("status");
    assert("turn_id"@.len() == 7);
    assert("turn_id"@[0] == 't');
    assert("provider"@.len() == 8);
    assert("source"@.len() == 6);
    assert("tool"@.len() == 4);
    assert("agent_name"@.len() == 10);
    assert("event_name"@.len() == 10);
    assert("normalized_event"@.len() == 16);
    assert("context"@.len() == 7);
    assert("context"@[0] == 'c');
    assert("event_payload"@.len() == 13);
    assert("payload"@.len() == 7);
    assert("payload"@[0] == 'p');
    assert("directory"@.len() == 9);
    assert("repo_path"@.len() == 9);
    assert("worktree_path"@.len() == 13);
    assert("repo_name"@.len() == 9);
    assert("project"@.len() == 7);
    assert("project"@[0] == 'p');
    assert("session_id"@.len() == 10);
    assert("tool_name"@.len() == 9);
    assert("command"@.len() == 7);
    assert("command"@[0] == 'c');
    assert("prompt"@.len() == 6);
    assert("model"@.len() == 5);
    assert("session_source"@.len() == 14);
    assert("project_identity"@.len() == 16);
    assert("status"@.len() == 6);
}

proof fn lemma_payload_tool_name(f: HookFacts, p: Node)
    ensures
        json::member(native_hooks::hook_payload(f, p), "tool_name"@) == text_node(f.tool_name),
{
    broadcast use {json_laws::group_members, json_laws::group_optional_members};

    reveal_strlit("tool_name");
    reveal_strlit("provider");
    reveal_strlit("source");
    reveal_strlit("tool");
    reveal_strlit("agent_name");
    reveal_strlit("event_name");
    reveal_strlit("normalized_event");
    reveal_strlit("context");
    reveal_strlit("event_payload");
    reveal_strlit("payload");
    reveal_strlit("directory");
    reveal_strlit("repo_path");
    reveal_strlit("worktree_path");
    reveal_strlit("repo_name");
    reveal_strlit("project");
    reveal_strlit("session_id");
    reveal_strlit("turn_id");
    reveal_strlit("command");
    reveal_strlit("prompt");
    reveal_strlit("model");
    reveal_strlit("session_source");
    reveal_strlit("project_identity");
    reveal_strlit("status");
    assert("tool_name"@.len() == 9);
    assert("tool_name"@[0] == 't');
    assert("provider"@.len() == 8);
    assert("source"@.len() == 6);
    assert("tool"@.len() == 4);
    assert("agent_name"@.len() == 10);
    assert("event_name"@.len() == 10);
    assert("normalized_event"@.len() == 16);
    assert("context"@.len() == 7);
    assert("event_payload"@.len() == 13);
    assert("payload"@.len() == 7);
    assert("directory"@.len() == 9);
    assert("directory"@[0] == 'd');
    assert("repo_path"@.len() == 9);
    assert("repo_path"@[0] == 'r');
    assert("worktree_path"@.len() == 13);
    assert("repo_name"@.len() == 9);
    assert("repo_name"@[0] == 'r');
    assert("project"@.len() == 7);
    assert("session_id"@.len() == 10);
    assert("turn_id"@.len() == 7);
    assert("command"@.len() == 7);
    assert("prompt"@.len() == 6);
    assert("model"@.len() == 5);
    assert("session_source"@.len() == 14);
    assert("project_identity"@.len() == 16);
    assert("status"@.len() == 6);
}

proof fn lemma_payload_command(f: HookFacts, p: Node)
    ensures
        json::member(native_hooks::hook_payload(f, p), "command"@) == text_node(f.command),
{
    broadcast use {json_laws::group_members, json_laws::group_optional_members};

    reveal_strlit("command");
    reveal_strlit("provider");
    reveal_strlit("source");
    reveal_strlit("tool");
    reveal_strlit("agent_name");
    reveal_strlit("event_name");
    reveal_strlit("normalized_event");
    reveal_strlit("context");
    reveal_strlit("event_payload");
    reveal_strlit("payload");
    reveal_strlit("directory");
    reveal_strlit("repo_path");
    reveal_strlit("worktree_path");
    reveal_strlit("repo_name");
    reveal_strlit("project");
    reveal_strlit("session_id");
    reveal_strlit("turn_id");
    reveal_strlit("tool_name");
    reveal_strlit("prompt");
    reveal_strlit("model");
    reveal_strlit("session_source");
    reveal_strlit("project_identity");
    reveal_strlit("status");
    assert("command"@.len() == 7);
    assert("command"@[0] == 'c');
    assert("command"@[2] == 'm');
    assert("provider"@.len() == 8);
    assert("source"@.len() == 6);
    assert("tool"@.len() == 4);
    assert("agent_name"@.len() == 10);
    assert("event_name"@.len() == 10);
    assert("normalized_event"@.len() == 16);
    assert("context"@.len() == 7);
    assert("context"@[2] == 'n');
    assert("event_payload"@.len() == 13);
    assert("payload"@.len() == 7);
    assert("payload"@[0] == 'p');
    assert("directory"@.len() == 9);
    assert("repo_path"@.len() == 9);
    assert("worktree_path"@.len() == 13);
    assert("repo_name"@.len() == 9);
    assert("project"@.len() == 7);
    assert("project"@[0] == 'p');
    assert("session_id"@.len() == 10);
    assert("turn_id"@.len() == 7);
    assert("turn_id"@[0] == 't');
    assert("tool_name"@.len() == 9);
    assert("prompt"@.len() == 6);
    assert("model"@.len() == 5);
    assert("session_source"@.len() == 14);
    assert("project_identity"@.len() == 16);
    assert("status"@.len() == 6);
}

proof fn lemma_payload_prompt(f: HookFacts, p: Node)
    ensures
        json::member(native_hooks::hook_payload(f, p), "prompt"@) == text_node(f.prompt),
{
    broadcast use {json_laws::group_members, json_laws::group_optional_members};

    reveal_strlit("prompt");
    reveal_strlit("provider");
    reveal_strlit("source");
    reveal_strlit("tool");
    reveal_strlit("agent_name");
    reveal_strlit("event_name");
    reveal_strlit("normalized_event");
    reveal_strlit("context");
    reveal_strlit("event_payload");
    reveal_strlit("payload");
    reveal_strlit("directory");
    reveal_strlit("repo_path");
    reveal_strlit("worktree_path");
    reveal_strlit("repo_name");
    reveal_strlit("project");
    reveal_strlit("session_id");
    reveal_strlit("turn_id");
    reveal_strlit("tool_name");
    reveal_strlit("command");
    reveal_strlit("model");
    reveal_strlit("session_source");
    reveal_strlit("project_identity");
    reveal_strlit("status");
    assert("prompt"@.len() == 6);
    assert("prompt"@[0] == 'p');
    assert("provider"@.len() == 8);
    assert("source"@.len() == 6);
    assert("source"@[0] == 's');
    assert("tool"@.len() == 4);
    assert("agent_name"@.len() == 10);
    assert("event_name"@.len() == 10);
    assert("normalized_event"@.len() == 16);
    assert("context"@.len() == 7);
    assert("event_payload"@.len() == 13);
    assert("payload"@.len() == 7);
    assert("directory"@.len() == 9);
    assert("repo_path"@.len() == 9);
    assert("worktree_path"@.len() == 13);
    assert("repo_name"@.len() == 9);
    assert("project"@.len() == 7);
    assert("session_id"@.len() == 10);
    assert("turn_id"@.len() == 7);
    assert("tool_name"@.len() == 9);
    assert("command"@.len() == 7);
    assert("model"@.len() == 5);
    assert("session_source"@.len() == 14);
    assert("project_identity"@.len() == 16);
    assert("status"@.len() == 6);
    assert("status"@[0] == 's');
}

proof fn lemma_payload_model(f: HookFacts, p: Node)
    ensures
        json::member(native_hooks::hook_payload(f, p), "model"@) == text_node(f.model),
{
    broadcast use {json_laws::group_members, json_laws::group_optional_members};

    reveal_strlit("model");
    reveal_strlit("provider");
    reveal_strlit("source");
    reveal_strlit("tool");
    reveal_strlit("agent_name");
    reveal_strlit("event_name");
    reveal_strlit("normalized_event");
    reveal_strlit("context");
    reveal_strlit("event_payload");
    reveal_strlit("payload");
    reveal_strlit("directory");
    reveal_strlit("repo_path");
    reveal_strlit("worktree_path");
    reveal_strlit("repo_name");
    reveal_strlit("project");
    reveal_strlit("session_id");
    reveal_strlit("turn_id");
    reveal_strlit("tool_name");
    reveal_strlit("command");
    reveal_strlit("prompt");
    reveal_strlit("session_source");
    reveal_strlit("project_identity");
    reveal_strlit("status");
    assert("model"@.len() == 5);
    assert("provider"@.len() == 8);
    assert("source"@.len() == 6);
    assert("tool"@.len() == 4);
    assert("agent_name"@.len() == 10);
    assert("event_name"@.len() == 10);
    assert("normalized_event"@.len() == 16);
    assert("context"@.len() == 7);
    assert("event_payload"@.len() == 13);
    assert("payload"@.len() == 7);
    assert("directory"@.len() == 9);
    assert("repo_path"@.len() == 9);
    assert("worktree_path"@.len() == 13);
    assert("repo_name"@.len() == 9);
    assert("project"@.len() == 7);
    assert("session_id"@.len() == 10);
    assert("turn_id"@.len() == 7);
    assert("tool_name"@.len() == 9);
    assert("command"@.len() == 7);
    assert("prompt"@.len() == 6);
    assert("session_source"@.len() == 14);
    assert("project_identity"@.len() == 16);
    assert("status"@.len() == 6);
}

proof fn lemma_payload_session_source(f: HookFacts, p: Node)
    ensures
        json::member(
            native_hooks::hook_payload(f, p),
            "session_source"@,
        ) == text_node(f.session_source),
{
    broadcast use {json_laws::group_members, json_laws::group_optional_members};

    reveal_strlit("session_source");
    reveal_strlit("provider");
    reveal_strlit("source");
    reveal_strlit("tool");
    reveal_strlit("agent_name");
    reveal_strlit("event_name");
    reveal_strlit("normalized_event");
    reveal_strlit("context");
    reveal_strlit("event_payload");
    reveal_strlit("payload");
    reveal_strlit("directory");
    reveal_strlit("repo_path");
    reveal_strlit("worktree_path");
    reveal_strlit("repo_name");
    reveal_strlit("project");
    reveal_strlit("session_id");
    reveal_strlit("turn_id");
    reveal_strlit("tool_name");
    reveal_strlit("command");
    reveal_strlit("prompt");
    reveal_strlit("model");
    reveal_strlit("project_identity");
    reveal_strlit("status");
    assert("session_source"@.len() == 14);
    assert("provider"@.len() == 8);
    assert("source"@.len() == 6);
    assert("tool"@.len() == 4);
    assert("agent_name"@.len() == 10);
    assert("event_name"@.len() == 10);
    assert("normalized_event"@.len() == 16);
    assert("context"@.len() == 7);
    assert("event_payload"@.len() == 13);
    assert("payload"@.len() == 7);
    assert("directory"@.len() == 9);
    assert("repo_path"@.len() == 9);
    assert("worktree_path"@.len() == 13);
    assert("repo_name"@.len() == 9);
    assert("project"@.len() == 7);
    assert("session_id"@.len() == 10);
    assert("turn_id"@.len() == 7);
    assert("tool_name"@.len() == 9);
    assert("command"@.len() == 7);
    assert("prompt"@.len() == 6);
    assert("model"@.len() == 5);
    assert("project_identity"@.len() == 16);
    assert("status"@.len() == 6);
}

proof fn lemma_payload_project_identity(f: HookFacts, p: Node)
    ensures
        json::member(native_hooks::hook_payload(f, p), "project_identity"@) == f.metadata,
{
    broadcast use {json_laws::group_members, json_laws::group_optional_members};

    reveal_strlit("project_identity");
    reveal_strlit("provider");
    reveal_strlit("source");
    reveal_strlit("tool");
    reveal_strlit("agent_name");
    reveal_strlit("event_name");
    reveal_strlit("normalized_event");
    reveal_strlit("context");
    reveal_strlit("event_payload");
    reveal_strlit("payload");
    reveal_strlit("directory");
    reveal_strlit("repo_path");
    reveal_strlit("worktree_path");
    reveal_strlit("repo_name");
    reveal_strlit("project");
    reveal_strlit("session_id");
    reveal_strlit("turn_id");
    reveal_strlit("tool_name");
    reveal_strlit("command");
    reveal_strlit("prompt");
    reveal_strlit("model");
    reveal_strlit("session_source");
    reveal_strlit("status");
    assert("project_identity"@.len() == 16);
    assert("project_identity"@[0] == 'p');
    assert("provider"@.len() == 8);
    assert("source"@.len() == 6);
    assert("tool"@.len() == 4);
    assert("agent_name"@.len() == 10);
    assert("event_name"@.len() == 10);
    assert("normalized_event"@.len() == 16);
    assert("normalized_event"@[0] == 'n');
    assert("context"@.len() == 7);
    assert("event_payload"@.len() == 13);
    assert("payload"@.len() == 7);
    assert("directory"@.len() == 9);
    assert("repo_path"@.len() == 9);
    assert("worktree_path"@.len() == 13);
    assert("repo_name"@.len() == 9);
    assert("project"@.len() == 7);
    assert("session_id"@.len() == 10);
    assert("turn_id"@.len() == 7);
    assert("tool_name"@.len() == 9);
    assert("command"@.len() == 7);
    assert("prompt"@.len() == 6);
    assert("model"@.len() == 5);
    assert("session_source"@.len() == 14);
    assert("status"@.len() == 6);
}

proof fn lemma_payload_status(f: HookFacts, p: Node)
    ensures
        json::member(native_hooks::hook_payload(f, p), "status"@) == Some(Node::Text(f.phase)),
{
    broadcast use {json_laws::group_members, json_laws::group_optional_members};

    reveal_strlit("status");
    reveal_strlit("provider");
    reveal_strlit("source");
    reveal_strlit("tool");
    reveal_strlit("agent_name");
    reveal_strlit("event_name");
    reveal_strlit("normalized_event");
    reveal_strlit("context");
    reveal_strlit("event_payload");
    reveal_strlit("payload");
    reveal_strlit("directory");
    reveal_strlit("repo_path");
    reveal_strlit("worktree_path");
    reveal_strlit("repo_name");
    reveal_strlit("project");
    reveal_strlit("session_id");
    reveal_strlit("turn_id");
    reveal_strlit("tool_name");
    reveal_strlit("command");
    reveal_strlit("prompt");
    reveal_strlit("model");
    reveal_strlit("session_source");
    reveal_strlit("project_identity");
    assert("status"@.len() == 6);
    assert("status"@[0] == 's');
    assert("status"@[1] == 't');
    assert("provider"@.len() == 8);
    assert("source"@.len() == 6);
    assert("source"@[1] == 'o');
    assert("tool"@.len() == 4);
    assert("agent_name"@.len() == 10);
    assert("event_name"@.len() == 10);
    assert("normalized_event"@.len() == 16);
    assert("context"@.len() == 7);
    assert("event_payload"@.len() == 13);
    assert("payload"@.len() == 7);
    assert("directory"@.len() == 9);
    assert("repo_path"@.len() == 9);
    assert("worktree_path"@.len() == 13);
    assert("repo_name"@.len() == 9);
    assert("project"@.len() == 7);
    assert("session_id"@.len() == 10);
    assert("turn_id"@.len() == 7);
    assert("tool_name"@.len() == 9);
    assert("command"@.len() == 7);
    assert("prompt"@.len() == 6);
    assert("prompt"@[0] == 'p');
    assert("model"@.len() == 5);
    assert("session_source"@.len() == 14);
    assert("project_identity"@.len() == 16);
}

proof fn lemma_context_provider(f: HookFacts)
    ensures
        json::member(native_hooks::hook_context(f), "provider"@) == Some(Node::Text(f.provider)),
{
    broadcast use {json_laws::group_members, json_laws::group_optional_members};

    reveal_strlit("provider");
    reveal_strlit("event_name");
    reveal_strlit("normalized_event");
    reveal_strlit("directory");
    reveal_strlit("repo_path");
    reveal_strlit("worktree_path");
    reveal_strlit("repo_name");
    reveal_strlit("project");
    reveal_strlit("project_identity");
    reveal_strlit("session_id");
    reveal_strlit("turn_id");
    reveal_strlit("model");
    reveal_strlit("tool_name");
    reveal_strlit("command");
    reveal_strlit("prompt");
    reveal_strlit("session_source");
    assert("provider"@.len() == 8);
    assert("event_name"@.len() == 10);
    assert("normalized_event"@.len() == 16);
    assert("directory"@.len() == 9);
    assert("repo_path"@.len() == 9);
    assert("worktree_path"@.len() == 13);
    assert("repo_name"@.len() == 9);
    assert("project"@.len() == 7);
    assert("project_identity"@.len() == 16);
    assert("session_id"@.len() == 10);
    assert("turn_id"@.len() == 7);
    assert("model"@.len() == 5);
    assert("tool_name"@.len() == 9);
    assert("command"@.len() == 7);
    assert("prompt"@.len() == 6);
    assert("session_source"@.len() == 14);
}

proof fn lemma_context_event_name(f: HookFacts)
    ensures
        json::member(
            native_hooks::hook_context(f),
            "event_name"@,
        ) == Some(Node::Text(f.event_name)),
{
    broadcast use {json_laws::group_members, json_laws::group_optional_members};

    reveal_strlit("event_name");
    reveal_strlit("provider");
    reveal_strlit("normalized_event");
    reveal_strlit("directory");
    reveal_strlit("repo_path");
    reveal_strlit("worktree_path");
    reveal_strlit("repo_name");
    reveal_strlit("project");
    reveal_strlit("project_identity");
    reveal_strlit("session_id");
    reveal_strlit("turn_id");
    reveal_strlit("model");
    reveal_strlit("tool_name");
    reveal_strlit("command");
    reveal_strlit("prompt");
    reveal_strlit("session_source");
    assert("event_name"@.len() == 10);
    assert("event_name"@[0] == 'e');
    assert("provider"@.len() == 8);
    assert("normalized_event"@.len() == 16);
    assert("directory"@.len() == 9);
    assert("repo_path"@.len() == 9);
    assert("worktree_path"@.len() == 13);
    assert("repo_name"@.len() == 9);
    assert("project"@.len() == 7);
    assert("project_identity"@.len() == 16);
    assert("session_id"@.len() == 10);
    assert("session_id"@[0] == 's');
    assert("turn_id"@.len() == 7);
    assert("model"@.len() == 5);
    assert("tool_name"@.len() == 9);
    assert("command"@.len() == 7);
    assert("prompt"@.len() == 6);
    assert("session_source"@.len() == 14);
}

proof fn lemma_context_normalized_event(f: HookFacts)
    ensures
        json::member(
            native_hooks::hook_context(f),
            "normalized_event"@,
        ) == Some(Node::Text(f.phase)),
{
    broadcast use {json_laws::group_members, json_laws::group_optional_members};

    reveal_strlit("normalized_event");
    reveal_strlit("provider");
    reveal_strlit("event_name");
    reveal_strlit("directory");
    reveal_strlit("repo_path");
    reveal_strlit("worktree_path");
    reveal_strlit("repo_name");
    reveal_strlit("project");
    reveal_strlit("project_identity");
    reveal_strlit("session_id");
    reveal_strlit("turn_id");
    reveal_strlit("model");
    reveal_strlit("tool_name");
    reveal_strlit("command");
    reveal_strlit("prompt");
    reveal_strlit("session_source");
    assert("normalized_event"@.len() == 16);
    assert("normalized_event"@[0] == 'n');
    assert("provider"@.len() == 8);
    assert("event_name"@.len() == 10);
    assert("directory"@.len() == 9);
    assert("repo_path"@.len() == 9);
    assert("worktree_path"@.len() == 13);
    assert("repo_name"@.len() == 9);
    assert("project"@.len() == 7);
    assert("project_identity"@.len() == 16);
    assert("project_identity"@[0] == 'p');
    assert("session_id"@.len() == 10);
    assert("turn_id"@.len() == 7);
    assert("model"@.len() == 5);
    assert("tool_name"@.len() == 9);
    assert("command"@.len() == 7);
    assert("prompt"@.len() == 6);
    assert("session_source"@.len() == 14);
}

proof fn lemma_context_directory(f: HookFacts)
    ensures
        json::member(native_hooks::hook_context(f), "directory"@) == text_node(f.directory),
{
    broadcast use {json_laws::group_members, json_laws::group_optional_members};

    reveal_strlit("directory");
    reveal_strlit("provider");
    reveal_strlit("event_name");
    reveal_strlit("normalized_event");
    reveal_strlit("repo_path");
    reveal_strlit("worktree_path");
    reveal_strlit("repo_name");
    reveal_strlit("project");
    reveal_strlit("project_identity");
    reveal_strlit("session_id");
    reveal_strlit("turn_id");
    reveal_strlit("model");
    reveal_strlit("tool_name");
    reveal_strlit("command");
    reveal_strlit("prompt");
    reveal_strlit("session_source");
    assert("directory"@.len() == 9);
    assert("directory"@[0] == 'd');
    assert("provider"@.len() == 8);
    assert("event_name"@.len() == 10);
    assert("normalized_event"@.len() == 16);
    assert("repo_path"@.len() == 9);
    assert("repo_path"@[0] == 'r');
    assert("worktree_path"@.len() == 13);
    assert("repo_name"@.len() == 9);
    assert("repo_name"@[0] == 'r');
    assert("project"@.len() == 7);
    assert("project_identity"@.len() == 16);
    assert("session_id"@.len() == 10);
    assert("turn_id"@.len() == 7);
    assert("model"@.len() == 5);
    assert("tool_name"@.len() == 9);
    assert("tool_name"@[0] == 't');
    assert("command"@.len() == 7);
    assert("prompt"@.len() == 6);
    assert("session_source"@.len() == 14);
}

proof fn lemma_context_repo_path(f: HookFacts)
    ensures
        json::member(native_hooks::hook_context(f), "repo_path"@) == text_node(f.repo_path),
{
    broadcast use {json_laws::group_members, json_laws::group_optional_members};

    reveal_strlit("repo_path");
    reveal_strlit("provider");
    reveal_strlit("event_name");
    reveal_strlit("normalized_event");
    reveal_strlit("directory");
    reveal_strlit("worktree_path");
    reveal_strlit("repo_name");
    reveal_strlit("project");
    reveal_strlit("project_identity");
    reveal_strlit("session_id");
    reveal_strlit("turn_id");
    reveal_strlit("model");
    reveal_strlit("tool_name");
    reveal_strlit("command");
    reveal_strlit("prompt");
    reveal_strlit("session_source");
    assert("repo_path"@.len() == 9);
    assert("repo_path"@[0] == 'r');
    assert("repo_path"@[5] == 'p');
    assert("provider"@.len() == 8);
    assert("event_name"@.len() == 10);
    assert("normalized_event"@.len() == 16);
    assert("directory"@.len() == 9);
    assert("directory"@[0] == 'd');
    assert("worktree_path"@.len() == 13);
    assert("repo_name"@.len() == 9);
    assert("repo_name"@[5] == 'n');
    assert("project"@.len() == 7);
    assert("project_identity"@.len() == 16);
    assert("session_id"@.len() == 10);
    assert("turn_id"@.len() == 7);
    assert("model"@.len() == 5);
    assert("tool_name"@.len() == 9);
    assert("tool_name"@[0] == 't');
    assert("command"@.len() == 7);
    assert("prompt"@.len() == 6);
    assert("session_source"@.len() == 14);
}

proof fn lemma_context_worktree_path(f: HookFacts)
    ensures
        json::member(native_hooks::hook_context(f), "worktree_path"@) == text_node(f.worktree_path),
{
    broadcast use {json_laws::group_members, json_laws::group_optional_members};

    reveal_strlit("worktree_path");
    reveal_strlit("provider");
    reveal_strlit("event_name");
    reveal_strlit("normalized_event");
    reveal_strlit("directory");
    reveal_strlit("repo_path");
    reveal_strlit("repo_name");
    reveal_strlit("project");
    reveal_strlit("project_identity");
    reveal_strlit("session_id");
    reveal_strlit("turn_id");
    reveal_strlit("model");
    reveal_strlit("tool_name");
    reveal_strlit("command");
    reveal_strlit("prompt");
    reveal_strlit("session_source");
    assert("worktree_path"@.len() == 13);
    assert("provider"@.len() == 8);
    assert("event_name"@.len() == 10);
    assert("normalized_event"@.len() == 16);
    assert("directory"@.len() == 9);
    assert("repo_path"@.len() == 9);
    assert("repo_name"@.len() == 9);
    assert("project"@.len() == 7);
    assert("project_identity"@.len() == 16);
    assert("session_id"@.len() == 10);
    assert("turn_id"@.len() == 7);
    assert("model"@.len() == 5);
    assert("tool_name"@.len() == 9);
    assert("command"@.len() == 7);
    assert("prompt"@.len() == 6);
    assert("session_source"@.len() == 14);
}

proof fn lemma_context_repo_name(f: HookFacts)
    ensures
        json::member(native_hooks::hook_context(f), "repo_name"@) == text_node(f.repo_name),
{
    broadcast use {json_laws::group_members, json_laws::group_optional_members};

    reveal_strlit("repo_name");
    reveal_strlit("provider");
    reveal_strlit("event_name");
    reveal_strlit("normalized_event");
    reveal_strlit("directory");
    reveal_strlit("repo_path");
    reveal_strlit("worktree_path");
    reveal_strlit("project");
    reveal_strlit("project_identity");
    reveal_strlit("session_id");
    reveal_strlit("turn_id");
    reveal_strlit("model");
    reveal_strlit("tool_name");
    reveal_strlit("command");
    reveal_strlit("prompt");
    reveal_strlit("session_source");
    assert("repo_name"@.len() == 9);
    assert("repo_name"@[0] == 'r');
    assert("repo_name"@[5] == 'n');
    assert("provider"@.len() == 8);
    assert("event_name"@.len() == 10);
    assert("normalized_event"@.len() == 16);
    assert("directory"@.len() == 9);
    assert("directory"@[0] == 'd');
    assert("repo_path"@.len() == 9);
    assert("repo_path"@[5] == 'p');
    assert("worktree_path"@.len() == 13);
    assert("project"@.len() == 7);
    assert("project_identity"@.len() == 16);
    assert("session_id"@.len() == 10);
    assert("turn_id"@.len() == 7);
    assert("model"@.len() == 5);
    assert("tool_name"@.len() == 9);
    assert("tool_name"@[0] == 't');
    assert("command"@.len() == 7);
    assert("prompt"@.len() == 6);
    assert("session_source"@.len() == 14);
}

proof fn lemma_context_project(f: HookFacts)
    ensures
        json::member(native_hooks::hook_context(f), "project"@) == text_node(f.project),
{
    broadcast use {json_laws::group_members, json_laws::group_optional_members};

    reveal_strlit("project");
    reveal_strlit("provider");
    reveal_strlit("event_name");
    reveal_strlit("normalized_event");
    reveal_strlit("directory");
    reveal_strlit("repo_path");
    reveal_strlit("worktree_path");
    reveal_strlit("repo_name");
    reveal_strlit("project_identity");
    reveal_strlit("session_id");
    reveal_strlit("turn_id");
    reveal_strlit("model");
    reveal_strlit("tool_name");
    reveal_strlit("command");
    reveal_strlit("prompt");
    reveal_strlit("session_source");
    assert("project"@.len() == 7);
    assert("project"@[0] == 'p');
    assert("provider"@.len() == 8);
    assert("event_name"@.len() == 10);
    assert("normalized_event"@.len() == 16);
    assert("directory"@.len() == 9);
    assert("repo_path"@.len() == 9);
    assert("worktree_path"@.len() == 13);
    assert("repo_name"@.len() == 9);
    assert("project_identity"@.len() == 16);
    assert("session_id"@.len() == 10);
    assert("turn_id"@.len() == 7);
    assert("turn_id"@[0] == 't');
    assert("model"@.len() == 5);
    assert("tool_name"@.len() == 9);
    assert("command"@.len() == 7);
    assert("command"@[0] == 'c');
    assert("prompt"@.len() == 6);
    assert("session_source"@.len() == 14);
}

proof fn lemma_context_project_identity(f: HookFacts)
    ensures
        json::member(native_hooks::hook_context(f), "project_identity"@) == f.metadata,
{
    broadcast use {json_laws::group_members, json_laws::group_optional_members};

    reveal_strlit("project_identity");
    reveal_strlit("provider");
    reveal_strlit("event_name");
    reveal_strlit("normalized_event");
    reveal_strlit("directory");
    reveal_strlit("repo_path");
    reveal_strlit("worktree_path");
    reveal_strlit("repo_name");
    reveal_strlit("project");
    reveal_strlit("session_id");
    reveal_strlit("turn_id");
    reveal_strlit("model");
    reveal_strlit("tool_name");
    reveal_strlit("command");
    reveal_strlit("prompt");
    reveal_strlit("session_source");
    assert("project_identity"@.len() == 16);
    assert("project_identity"@[0] == 'p');
    assert("provider"@.len() == 8);
    assert("event_name"@.len() == 10);
    assert("normalized_event"@.len() == 16);
    assert("normalized_event"@[0] == 'n');
    assert("directory"@.len() == 9);
    assert("repo_path"@.len() == 9);
    assert("worktree_path"@.len() == 13);
    assert("repo_name"@.len() == 9);
    assert("project"@.len() == 7);
    assert("session_id"@.len() == 10);
    assert("turn_id"@.len() == 7);
    assert("model"@.len() == 5);
    assert("tool_name"@.len() == 9);
    assert("command"@.len() == 7);
    assert("prompt"@.len() == 6);
    assert("session_source"@.len() == 14);
}

proof fn lemma_context_session_id(f: HookFacts)
    ensures
        json::member(native_hooks::hook_context(f), "session_id"@) == text_node(f.session_id),
{
    broadcast use {json_laws::group_members, json_laws::group_optional_members};

    reveal_strlit("session_id");
    reveal_strlit("provider");
    reveal_strlit("event_name");
    reveal_strlit("normalized_event");
    reveal_strlit("directory");
    reveal_strlit("repo_path");
    reveal_strlit("worktree_path");
    reveal_strlit("repo_name");
    reveal_strlit("project");
    reveal_strlit("project_identity");
    reveal_strlit("turn_id");
    reveal_strlit("model");
    reveal_strlit("tool_name");
    reveal_strlit("command");
    reveal_strlit("prompt");
    reveal_strlit("session_source");
    assert("session_id"@.len() == 10);
    assert("session_id"@[0] == 's');
    assert("provider"@.len() == 8);
    assert("event_name"@.len() == 10);
    assert("event_name"@[0] == 'e');
    assert("normalized_event"@.len() == 16);
    assert("directory"@.len() == 9);
    assert("repo_path"@.len() == 9);
    assert("worktree_path"@.len() == 13);
    assert("repo_name"@.len() == 9);
    assert("project"@.len() == 7);
    assert("project_identity"@.len() == 16);
    assert("turn_id"@.len() == 7);
    assert("model"@.len() == 5);
    assert("tool_name"@.len() == 9);
    assert("command"@.len() == 7);
    assert("prompt"@.len() == 6);
    assert("session_source"@.len() == 14);
}

proof fn lemma_context_turn_id(f: HookFacts)
    ensures
        json::member(native_hooks::hook_context(f), "turn_id"@) == text_node(f.turn_id),
{
    broadcast use {json_laws::group_members, json_laws::group_optional_members};

    reveal_strlit("turn_id");
    reveal_strlit("provider");
    reveal_strlit("event_name");
    reveal_strlit("normalized_event");
    reveal_strlit("directory");
    reveal_strlit("repo_path");
    reveal_strlit("worktree_path");
    reveal_strlit("repo_name");
    reveal_strlit("project");
    reveal_strlit("project_identity");
    reveal_strlit("session_id");
    reveal_strlit("model");
    reveal_strlit("tool_name");
    reveal_strlit("command");
    reveal_strlit("prompt");
    reveal_strlit("session_source");
    assert("turn_id"@.len() == 7);
    assert("turn_id"@[0] == 't');
    assert("provider"@.len() == 8);
    assert("event_name"@.len() == 10);
    assert("normalized_event"@.len() == 16);
    assert("directory"@.len() == 9);
    assert("repo_path"@.len() == 9);
    assert("worktree_path"@.len() == 13);
    assert("repo_name"@.len() == 9);
    assert("project"@.len() == 7);
    assert("project"@[0] == 'p');
    assert("project_identity"@.len() == 16);
    assert("session_id"@.len() == 10);
    assert("model"@.len() == 5);
    assert("tool_name"@.len() == 9);
    assert("command"@.len() == 7);
    assert("command"@[0] == 'c');
    assert("prompt"@.len() == 6);
    assert("session_source"@.len() == 14);
}

proof fn lemma_context_model(f: HookFacts)
    ensures
        json::member(native_hooks::hook_context(f), "model"@) == text_node(f.model),
{
    broadcast use {json_laws::group_members, json_laws::group_optional_members};

    reveal_strlit("model");
    reveal_strlit("provider");
    reveal_strlit("event_name");
    reveal_strlit("normalized_event");
    reveal_strlit("directory");
    reveal_strlit("repo_path");
    reveal_strlit("worktree_path");
    reveal_strlit("repo_name");
    reveal_strlit("project");
    reveal_strlit("project_identity");
    reveal_strlit("session_id");
    reveal_strlit("turn_id");
    reveal_strlit("tool_name");
    reveal_strlit("command");
    reveal_strlit("prompt");
    reveal_strlit("session_source");
    assert("model"@.len() == 5);
    assert("provider"@.len() == 8);
    assert("event_name"@.len() == 10);
    assert("normalized_event"@.len() == 16);
    assert("directory"@.len() == 9);
    assert("repo_path"@.len() == 9);
    assert("worktree_path"@.len() == 13);
    assert("repo_name"@.len() == 9);
    assert("project"@.len() == 7);
    assert("project_identity"@.len() == 16);
    assert("session_id"@.len() == 10);
    assert("turn_id"@.len() == 7);
    assert("tool_name"@.len() == 9);
    assert("command"@.len() == 7);
    assert("prompt"@.len() == 6);
    assert("session_source"@.len() == 14);
}

proof fn lemma_context_tool_name(f: HookFacts)
    ensures
        json::member(native_hooks::hook_context(f), "tool_name"@) == text_node(f.tool_name),
{
    broadcast use {json_laws::group_members, json_laws::group_optional_members};

    reveal_strlit("tool_name");
    reveal_strlit("provider");
    reveal_strlit("event_name");
    reveal_strlit("normalized_event");
    reveal_strlit("directory");
    reveal_strlit("repo_path");
    reveal_strlit("worktree_path");
    reveal_strlit("repo_name");
    reveal_strlit("project");
    reveal_strlit("project_identity");
    reveal_strlit("session_id");
    reveal_strlit("turn_id");
    reveal_strlit("model");
    reveal_strlit("command");
    reveal_strlit("prompt");
    reveal_strlit("session_source");
    assert("tool_name"@.len() == 9);
    assert("tool_name"@[0] == 't');
    assert("provider"@.len() == 8);
    assert("event_name"@.len() == 10);
    assert("normalized_event"@.len() == 16);
    assert("directory"@.len() == 9);
    assert("directory"@[0] == 'd');
    assert("repo_path"@.len() == 9);
    assert("repo_path"@[0] == 'r');
    assert("worktree_path"@.len() == 13);
    assert("repo_name"@.len() == 9);
    assert("repo_name"@[0] == 'r');
    assert("project"@.len() == 7);
    assert("project_identity"@.len() == 16);
    assert("session_id"@.len() == 10);
    assert("turn_id"@.len() == 7);
    assert("model"@.len() == 5);
    assert("command"@.len() == 7);
    assert("prompt"@.len() == 6);
    assert("session_source"@.len() == 14);
}

proof fn lemma_context_command(f: HookFacts)
    ensures
        json::member(native_hooks::hook_context(f), "command"@) == text_node(f.command),
{
    broadcast use {json_laws::group_members, json_laws::group_optional_members};

    reveal_strlit("command");
    reveal_strlit("provider");
    reveal_strlit("event_name");
    reveal_strlit("normalized_event");
    reveal_strlit("directory");
    reveal_strlit("repo_path");
    reveal_strlit("worktree_path");
    reveal_strlit("repo_name");
    reveal_strlit("project");
    reveal_strlit("project_identity");
    reveal_strlit("session_id");
    reveal_strlit("turn_id");
    reveal_strlit("model");
    reveal_strlit("tool_name");
    reveal_strlit("prompt");
    reveal_strlit("session_source");
    assert("command"@.len() == 7);
    assert("command"@[0] == 'c');
    assert("provider"@.len() == 8);
    assert("event_name"@.len() == 10);
    assert("normalized_event"@.len() == 16);
    assert("directory"@.len() == 9);
    assert("repo_path"@.len() == 9);
    assert("worktree_path"@.len() == 13);
    assert("repo_name"@.len() == 9);
    assert("project"@.len() == 7);
    assert("project"@[0] == 'p');
    assert("project_identity"@.len() == 16);
    assert("session_id"@.len() == 10);
    assert("turn_id"@.len() == 7);
    assert("turn_id"@[0] == 't');
    assert("model"@.len() == 5);
    assert("tool_name"@.len() == 9);
    assert("prompt"@.len() == 6);
    assert("session_source"@.len() == 14);
}

proof fn lemma_context_prompt(f: HookFacts)
    ensures
        json::member(native_hooks::hook_context(f), "prompt"@) == text_node(f.prompt),
{
    broadcast use {json_laws::group_members, json_laws::group_optional_members};

    reveal_strlit("prompt");
    reveal_strlit("provider");
    reveal_strlit("event_name");
    reveal_strlit("normalized_event");
    reveal_strlit("directory");
    reveal_strlit("repo_path");
    reveal_strlit("worktree_path");
    reveal_strlit("repo_name");
    reveal_strlit("project");
    reveal_strlit("project_identity");
    reveal_strlit("session_id");
    reveal_strlit("turn_id");
    reveal_strlit("model");
    reveal_strlit("tool_name");
    reveal_strlit("command");
    reveal_strlit("session_source");
    assert("prompt"@.len() == 6);
    assert("provider"@.len() == 8);
    assert("event_name"@.len() == 10);
    assert("normalized_event"@.len() == 16);
    assert("directory"@.len() == 9);
    assert("repo_path"@.len() == 9);
    assert("worktree_path"@.len() == 13);
    assert("repo_name"@.len() == 9);
    assert("project"@.len() == 7);
    assert("project_identity"@.len() == 16);
    assert("session_id"@.len() == 10);
    assert("turn_id"@.len() == 7);
    assert("model"@.len() == 5);
    assert("tool_name"@.len() == 9);
    assert("command"@.len() == 7);
    assert("session_source"@.len() == 14);
}

proof fn lemma_context_session_source(f: HookFacts)
    ensures
        json::member(
            native_hooks::hook_context(f),
            "session_source"@,
        ) == text_node(f.session_source),
{
    broadcast use {json_laws::group_members, json_laws::group_optional_members};

    reveal_strlit("session_source");
    reveal_strlit("provider");
    reveal_strlit("event_name");
    reveal_strlit("normalized_event");
    reveal_strlit("directory");
    reveal_strlit("repo_path");
    reveal_strlit("worktree_path");
    reveal_strlit("repo_name");
    reveal_strlit("project");
    reveal_strlit("project_identity");
    reveal_strlit("session_id");
    reveal_strlit("turn_id");
    reveal_strlit("model");
    reveal_strlit("tool_name");
    reveal_strlit("command");
    reveal_strlit("prompt");
    assert("session_source"@.len() == 14);
    assert("provider"@.len() == 8);
    assert("event_name"@.len() == 10);
    assert("normalized_event"@.len() == 16);
    assert("directory"@.len() == 9);
    assert("repo_path"@.len() == 9);
    assert("worktree_path"@.len() == 13);
    assert("repo_name"@.len() == 9);
    assert("project"@.len() == 7);
    assert("project_identity"@.len() == 16);
    assert("session_id"@.len() == 10);
    assert("turn_id"@.len() == 7);
    assert("model"@.len() == 5);
    assert("tool_name"@.len() == 9);
    assert("command"@.len() == 7);
    assert("prompt"@.len() == 6);
}

/// The name of a hook's provider: the coding assistant under either of its names, or what
/// the hook says, in lower case.
pub open spec fn provider_named(p: Node, assistant: Seq<char>) -> Seq<char> {
    match provider_in(p) {
        Some(name) => if scan::lowered(text::trimmed(name)) == assistant + "-code"@ {
            assistant
        } else if scan::lowered(text::trimmed(name)).len() == 0 {
            "unknown"@
        } else {
            scan::lowered(text::trimmed(name))
        },
        None => "unknown"@,
    }
}

proof fn lemma_provider(p: Node, assistant: Seq<char>)
    requires
        assistant.len() > 0,
        "unknown"@ != assistant + "-code"@,
    ensures
        native_hooks::provider_of(
            native_hooks::first_at(p, native_hooks::provider_paths()),
            assistant,
        ) == provider_named(p, assistant),
{
    lemma_provider_in(p);
    reveal_strlit("unknown");
    assert("unknown"@ =~= seq!['u', 'n', 'k', 'n', 'o', 'w', 'n']);
    let u = "unknown"@;
    assert(text::trim_left(u) == u);
    assert(text::trim_right(u) == u);
    assert forall|i: int| 0 <= i < u.len() implies scan::lowered(u)[i] == u[i] by {}
    assert(scan::lowered(u) =~= u);
    assert(text::trimmed(u) == u);
    match provider_in(p) {
        Some(name) => {
            let low = scan::lowered(text::trimmed(name));
            if low.len() == 0 {
                reveal_strlit("codex");
                assert(low != assistant + "-code"@);
                assert("codex"@.len() == 5);
                assert(low != "codex"@);
                assert(native_hooks::provider_of(Some(name), assistant) == "unknown"@);
            } else {
                assert(native_hooks::provider_of(Some(name), assistant) == provider_named(
                    p,
                    assistant,
                ));
            }
        },
        None => {
            assert(native_hooks::provider_of(None, assistant) == "unknown"@);
        },
    }
}

/// The phase of a session that a hook event stands for, by its name in lower case with dashes
/// for underscores and dots.
pub open spec fn phase_named(name: Seq<char>) -> Option<Seq<char>> {
    let word = scan::lowered(
        scan::replaced(scan::replaced(text::trimmed(name), "_"@, "-"@), "."@, "-"@),
    );
    if seq!["sessionstart"@, "session-start"@, "started"@].contains(word) {
        Some("started"@)
    } else if seq!["pretooluse"@, "pre-tool-use"@].contains(word) {
        Some("pre-tool-use"@)
    } else if seq!["posttooluse"@, "post-tool-use"@].contains(word) {
        Some("post-tool-use"@)
    } else if seq!["userpromptsubmit"@, "user-prompt-submit"@].contains(word) {
        Some("user-prompt-submit"@)
    } else if seq!["sessionend"@, "session-end"@, "finished"@, "stop"@].contains(word) {
        Some("finished"@)
    } else {
        None
    }
}

proof fn lemma_phase(name: Seq<char>)
    ensures
        native_hooks::phase_of(name) == phase_named(name),
{
    let a = seq!["sessionstart"@, "session-start"@, "started"@];
    assert(a[0] == "sessionstart"@ && a[1] == "session-start"@ && a[2] == "started"@);
    let b = seq!["pretooluse"@, "pre-tool-use"@];
    assert(b[0] == "pretooluse"@ && b[1] == "pre-tool-use"@);
    let c = seq!["posttooluse"@, "post-tool-use"@];
    assert(c[0] == "posttooluse"@ && c[1] == "post-tool-use"@);
    let d = seq!["userpromptsubmit"@, "user-prompt-submit"@];
    assert(d[0] == "userpromptsubmit"@ && d[1] == "user-prompt-submit"@);
    let e = seq!["sessionend"@, "session-end"@, "finished"@, "stop"@];
    assert(e[0] == "sessionend"@ && e[1] == "session-end"@ && e[2] == "finished"@ && e[3]
        == "stop"@);
}

/// The name of the file that a path leads to, where there is a path.
pub open spec fn name_of(path: Option<Seq<char>>) -> Option<Seq<char>> {
    match path {
        Some(p) => paths::file_name(p),
        None => None,
    }
}

/// What is known of the project: what the hook sends, or else what is stored.
pub open spec fn metadata_for(p: Node, stored: Option<Node>) -> Option<Node> {
    first_of(
        json::member(p, "project_identity"@),
        first_of(json::member(p, "project_metadata"@), stored),
    )
}

/// The path of the repository, which is the directory where the hook names none.
pub open spec fn repo_path_for(p: Node) -> Option<Seq<char>> {
    first_of(repo_path_in(p), directory_in(p))
}

/// The path of the worktree, which is the directory where the hook names none.
pub open spec fn worktree_path_for(p: Node) -> Option<Seq<char>> {
    first_of(worktree_path_in(p), directory_in(p))
}

/// The project: what the hook says, what the metadata says, or the name of the repository's
/// directory or of the worktree's.
pub open spec fn project_for(p: Node, stored: Option<Node>) -> Option<Seq<char>> {
    first_of(
        project_in(p),
        first_of(
            match metadata_for(p, stored) {
                Some(m) => meta_project_in(m),
                None => None,
            },
            first_of(name_of(repo_path_for(p)), name_of(worktree_path_for(p))),
        ),
    )
}

/// The repository: what the hook says, what the metadata says, or the project.
pub open spec fn repo_name_for(p: Node, stored: Option<Node>) -> Option<Seq<char>> {
    first_of(
        repo_name_in(p),
        first_of(
            match metadata_for(p, stored) {
                Some(m) => meta_repo_in(m),
                None => None,
            },
            project_for(p, stored),
        ),
    )
}

/// Where the event of a hook says what the hook told.
pub open spec fn says(
    after: Node,
    p: Node,
    stored: Option<Node>,
    provider: Seq<char>,
    name: Seq<char>,
    phase: Seq<char>,
) -> bool {
    &&& json::member(after, "provider"@) == Some(Node::Text(provider))
    &&& json::member(after, "event_name"@) == Some(Node::Text(name))
    &&& json::member(after, "normalized_event"@) == Some(Node::Text(phase))
    &&& json::member(after, "project_identity"@) == metadata_for(p, stored)
    &&& json::member(after, "directory"@) == text_node(directory_in(p))
    &&& json::member(after, "repo_path"@) == text_node(repo_path_for(p))
    &&& json::member(after, "worktree_path"@) == text_node(worktree_path_for(p))
    &&& json::member(after, "repo_name"@) == text_node(repo_name_for(p, stored))
    &&& json::member(after, "project"@) == text_node(project_for(p, stored))
    &&& json::member(after, "session_id"@) == text_node(session_id_in(p))
    &&& json::member(after, "turn_id"@) == text_node(turn_id_in(p))
    &&& json::member(after, "tool_name"@) == text_node(tool_name_in(p))
    &&& json::member(after, "command"@) == text_node(command_in(p))
    &&& json::member(after, "prompt"@) == text_node(prompt_in(p))
    &&& json::member(after, "model"@) == text_node(model_in(p))
}

/// What a session comes from, unless that is the provider.
pub open spec fn source_for(p: Node, provider: Seq<char>) -> Option<Node> {
    match session_source_in(p) {
        Some(s) => if s == provider {
            None
        } else {
            Some(Node::Text(s))
        },
        None => None,
    }
}

spec fn facts_of(
    p: Node,
    stored: Option<Node>,
    name: Seq<char>,
    phase: Seq<char>,
    provider: Seq<char>,
    source: Option<Seq<char>>,
) -> HookFacts {
    HookFacts {
        provider,
        event_name: name,
        phase,
        metadata: metadata_for(p, stored),
        directory: directory_in(p),
        repo_path: repo_path_for(p),
        worktree_path: worktree_path_for(p),
        repo_name: repo_name_for(p, stored),
        project: project_for(p, stored),
        session_id: session_id_in(p),
        turn_id: turn_id_in(p),
        tool_name: tool_name_in(p),
        command: command_in(p),
        prompt: prompt_in(p),
        model: model_in(p),
        session_source: source,
    }
}

proof fn lemma_facts(
    p: Node,
    stored: Option<Node>,
    name: Seq<char>,
    phase: Seq<char>,
    assistant: Seq<char>,
) -> (source: Option<Seq<char>>)
    requires
        assistant.len() > 0,
        "unknown"@ != assistant + "-code"@,
    ensures
        native_hooks::hook_facts(p, stored, name, phase, assistant) == facts_of(
            p,
            stored,
            name,
            phase,
            provider_named(p, assistant),
            source,
        ),
        text_node(source) == source_for(p, provider_named(p, assistant)),
{
    lemma_provider(p, assistant);
    lemma_directory_in(p);
    lemma_repo_path_in(p);
    lemma_worktree_path_in(p);
    lemma_project_in(p);
    lemma_repo_name_in(p);
    lemma_session_id_in(p);
    lemma_turn_id_in(p);
    lemma_tool_name_in(p);
    lemma_command_in(p);
    lemma_prompt_in(p);
    lemma_model_in(p);
    lemma_session_source_in(p);
    match metadata_for(p, stored) {
        Some(m) => {
            lemma_meta_project_in(m);
            lemma_meta_repo_in(m);
        },
        None => {},
    }
    native_hooks::hook_facts(p, stored, name, phase, assistant).session_source
}

proof fn lemma_payload(
    p: Node,
    stored: Option<Node>,
    name: Seq<char>,
    phase: Seq<char>,
    provider: Seq<char>,
    source: Option<Seq<char>>,
)
    ensures
        ({
            let f = facts_of(p, stored, name, phase, provider, source);
            let after = native_hooks::hook_payload(f, p);
            &&& says(after, p, stored, provider, name, phase)
            &&& json::member(after, "source"@) == Some(Node::Text(provider))
            &&& json::member(after, "tool"@) == Some(Node::Text(provider))
            &&& json::member(after, "agent_name"@) == Some(Node::Text(provider))
            &&& json::member(after, "status"@) == Some(Node::Text(phase))
            &&& json::member(after, "payload"@) == Some(p)
            &&& json::member(after, "session_source"@) == text_node(source)
            &&& json::member(after, "context"@) == Some(native_hooks::hook_context(f))
            &&& json::member(after, "event_payload"@) == Some(native_hooks::inner_payload(p))
        }),
{
    let f = facts_of(p, stored, name, phase, provider, source);
    lemma_payload_provider(f, p);
    lemma_payload_source(f, p);
    lemma_payload_tool(f, p);
    lemma_payload_agent_name(f, p);
    lemma_payload_event_name(f, p);
    lemma_payload_normalized_event(f, p);
    lemma_payload_context(f, p);
    lemma_payload_event_payload(f, p);
    lemma_payload_payload(f, p);
    lemma_payload_directory(f, p);
    lemma_payload_repo_path(f, p);
    lemma_payload_worktree_path(f, p);
    lemma_payload_repo_name(f, p);
    lemma_payload_project(f, p);
    lemma_payload_session_id(f, p);
    lemma_payload_turn_id(f, p);
    lemma_payload_tool_name(f, p);
    lemma_payload_command(f, p);
    lemma_payload_prompt(f, p);
    lemma_payload_model(f, p);
    lemma_payload_session_source(f, p);
    lemma_payload_project_identity(f, p);
    lemma_payload_status(f, p);
}

proof fn lemma_context(
    p: Node,
    stored: Option<Node>,
    name: Seq<char>,
    phase: Seq<char>,
    provider: Seq<char>,
    source: Option<Seq<char>>,
)
    ensures
        ({
            let f = facts_of(p, stored, name, phase, provider, source);
            let context = native_hooks::hook_context(f);
            &&& says(context, p, stored, provider, name, phase)
            &&& json::member(context, "session_source"@) == text_node(source)
        }),
{
    let f = facts_of(p, stored, name, phase, provider, source);
    lemma_context_provider(f);
    lemma_context_event_name(f);
    lemma_context_normalized_event(f);
    lemma_context_directory(f);
    lemma_context_repo_path(f);
    lemma_context_worktree_path(f);
    lemma_context_repo_name(f);
    lemma_context_project(f);
    lemma_context_project_identity(f);
    lemma_context_session_id(f);
    lemma_context_turn_id(f);
    lemma_context_model(f);
    lemma_context_tool_name(f);
    lemma_context_command(f);
    lemma_context_prompt(f);
    lemma_context_session_source(f);
}

/// A hook that names no event, or one that stands for no phase, is refused; every other
/// sends an event of a session in its phase, which says in fields of its own what the hook
/// told, wherever the hook told it, and holds the whole message.
pub proof fn law_event_of_a_hook(p: Node, stored: Option<Node>, assistant: Seq<char>)
    requires
        assistant.len() > 0,
        "unknown"@ != assistant + "-code"@,
    ensures
        match (event_name_in(p), native_hooks::hook_event(p, stored, assistant)) {
            (None, r) => r == Err::<crate::events::EventView, Seq<char>>(
                "missing native hook event name"@,
            ),
            (Some(name), r) => match (phase_named(name), r) {
                (None, r) => r == Err::<crate::events::EventView, Seq<char>>(
                    "unsupported native hook event '"@ + name + "'"@,
                ),
                (Some(phase), Ok(e)) => {
                    let provider = provider_named(p, assistant);
                    &&& e.kind == "session."@ + phase
                    &&& e.channel is None
                    &&& e.mention is None
                    &&& e.format is None
                    &&& e.template is None
                    &&& says(e.payload, p, stored, provider, name, phase)
                    &&& json::member(e.payload, "source"@) == Some(Node::Text(provider))
                    &&& json::member(e.payload, "tool"@) == Some(Node::Text(provider))
                    &&& json::member(e.payload, "agent_name"@) == Some(Node::Text(provider))
                    &&& json::member(e.payload, "status"@) == Some(Node::Text(phase))
                    &&& json::member(e.payload, "payload"@) == Some(p)
                    &&& first_of(
                        first_of(json::member(p, "event_payload"@), json::member(p, "payload"@)),
                        Some(json::empty()),
                    ) == json::member(e.payload, "event_payload"@)
                },
                _ => false,
            },
        },
{
    lemma_event_name_in(p);
    match event_name_in(p) {
        None => {},
        Some(name) => {
            lemma_phase(name);
            match phase_named(name) {
                None => {},
                Some(phase) => {
                    let source = lemma_facts(p, stored, name, phase, assistant);
                    let provider = provider_named(p, assistant);
                    let f = facts_of(p, stored, name, phase, provider, source);
                    lemma_payload(p, stored, name, phase, provider, source);
                    let before = native_hooks::hook_payload(f, p);
                    native_hooks::law_augmentation_overrides_nothing(
                        before,
                        native_hooks::augmentation_of(p),
                        "provider"@,
                    );
                    native_hooks::law_augmentation_overrides_nothing(
                        before,
                        native_hooks::augmentation_of(p),
                        "source"@,
                    );
                    native_hooks::law_augmentation_overrides_nothing(
                        before,
                        native_hooks::augmentation_of(p),
                        "tool"@,
                    );
                    native_hooks::law_augmentation_overrides_nothing(
                        before,
                        native_hooks::augmentation_of(p),
                        "agent_name"@,
                    );
                    native_hooks::law_augmentation_overrides_nothing(
                        before,
                        native_hooks::augmentation_of(p),
                        "event_name"@,
                    );
                    native_hooks::law_augmentation_overrides_nothing(
                        before,
                        native_hooks::augmentation_of(p),
                        "normalized_event"@,
                    );
                    native_hooks::law_augmentation_overrides_nothing(
                        before,
                        native_hooks::augmentation_of(p),
                        "event_payload"@,
                    );
                    native_hooks::law_augmentation_overrides_nothing(
                        before,
                        native_hooks::augmentation_of(p),
                        "payload"@,
                    );
                    native_hooks::law_augmentation_overrides_nothing(
                        before,
                        native_hooks::augmentation_of(p),
                        "directory"@,
                    );
                    native_hooks::law_augmentation_overrides_nothing(
                        before,
                        native_hooks::augmentation_of(p),
                        "repo_path"@,
                    );
                    native_hooks::law_augmentation_overrides_nothing(
                        before,
                        native_hooks::augmentation_of(p),
                        "worktree_path"@,
                    );
                    native_hooks::law_augmentation_overrides_nothing(
                        before,
                        native_hooks::augmentation_of(p),
                        "repo_name"@,
                    );
                    native_hooks::law_augmentation_overrides_nothing(
                        before,
                        native_hooks::augmentation_of(p),
                        "project"@,
                    );
                    native_hooks::law_augmentation_overrides_nothing(
                        before,
                        native_hooks::augmentation_of(p),
                        "session_id"@,
                    );
                    native_hooks::law_augmentation_overrides_nothing(
                        before,
                        native_hooks::augmentation_of(p),
                        "turn_id"@,
                    );
                    native_hooks::law_augmentation_overrides_nothing(
                        before,
                        native_hooks::augmentation_of(p),
                        "tool_name"@,
                    );
                    native_hooks::law_augmentation_overrides_nothing(
                        before,
                        native_hooks::augmentation_of(p),
                        "command"@,
                    );
                    native_hooks::law_augmentation_overrides_nothing(
                        before,
                        native_hooks::augmentation_of(p),
                        "prompt"@,
                    );
                    native_hooks::law_augmentation_overrides_nothing(
                        before,
                        native_hooks::augmentation_of(p),
                        "model"@,
                    );
                    native_hooks::law_augmentation_overrides_nothing(
                        before,
                        native_hooks::augmentation_of(p),
                        "project_identity"@,
                    );
                    native_hooks::law_augmentation_overrides_nothing(
                        before,
                        native_hooks::augmentation_of(p),
                        "status"@,
                    );
                },
            }
        },
    }
}

/// The event of a hook without an augmentation has a context that says the same, and says
/// what the session comes from unless that is the provider.
pub proof fn law_context_of_a_hook(p: Node, stored: Option<Node>, assistant: Seq<char>)
    requires
        assistant.len() > 0,
        "unknown"@ != assistant + "-code"@,
        json::member(p, "augmentation"@) is None,
        json::member(p, "augment"@) is None,
    ensures
        match native_hooks::hook_event(p, stored, assistant) {
            Ok(e) => match (event_name_in(p), json::member(e.payload, "context"@)) {
                (Some(name), Some(context)) => {
                    let provider = provider_named(p, assistant);
                    &&& phase_named(name) is Some
                    &&& says(context, p, stored, provider, name, phase_named(name)->0)
                    &&& json::member(context, "session_source"@) == source_for(p, provider)
                    &&& json::member(e.payload, "session_source"@) == source_for(p, provider)
                },
                _ => false,
            },
            Err(_) => true,
        },
{
    lemma_event_name_in(p);
    match event_name_in(p) {
        None => {},
        Some(name) => {
            lemma_phase(name);
            match phase_named(name) {
                None => {},
                Some(phase) => {
                    let source = lemma_facts(p, stored, name, phase, assistant);
                    let provider = provider_named(p, assistant);
                    lemma_payload(p, stored, name, phase, provider, source);
                    lemma_context(p, stored, name, phase, provider, source);
                },
            }
        },
    }
}

proof fn lemma_not_there(m: Seq<(Seq<char>, Node)>, key: Seq<char>)
    requires
        forall|i: int| 0 <= i < m.len() ==> (#[trigger] m[i]).0 != key,
    ensures
        table::lookup(m, key) is None,
    decreases m.len(),
{
    if m.len() > 0 {
        assert(m[m.len() - 1].0 != key);
        assert forall|i: int| 0 <= i < m.drop_last().len() implies (#[trigger] m.drop_last()[i]).0
            != key by {
            assert(m[i].0 != key);
        }
        lemma_not_there(m.drop_last(), key);
    }
}

proof fn lemma_augmented_at(t: Seq<(Seq<char>, Node)>, s: Seq<(Seq<char>, Node)>, i: int)
    requires
        0 <= i < s.len(),
        table::has_no_key_twice(s),
        !native_hooks::is_reserved(s[i].0),
        table::lookup(t, s[i].0) is None,
    ensures
        table::lookup(native_hooks::augmented_members(t, s), s[i].0) == Some(s[i].1),
    decreases s.len(),
{
    let front = s.drop_last();
    let key = s[i].0;
    assert(table::has_no_key_twice(front)) by {
        assert forall|a: int, b: int|
            #![trigger front[a], front[b]]
            0 <= a < b < front.len() implies front[a].0 != front[b].0 by {
            assert(s[a].0 != s[b].0);
        }
    }
    let so_far = native_hooks::augmented_members(t, front);
    if i == s.len() - 1 {
        lemma_augmented_elsewhere(t, front, key);
        table::law_put_then_lookup(so_far, key, s[i].1, key);
    } else {
        assert(front[i] == s[i]);
        lemma_augmented_at(t, front, i);
        let last = s.last().0;
        assert(s[i].0 != s[s.len() - 1].0);
        match table::lookup(so_far, last) {
            Some(existing) => {
                table::law_put_then_lookup(
                    so_far,
                    last,
                    native_hooks::merged(existing, s.last().1),
                    key,
                );
            },
            None => {
                table::law_put_then_lookup(so_far, last, s.last().1, key);
            },
        }
    }
}

proof fn lemma_augmented_elsewhere(
    t: Seq<(Seq<char>, Node)>,
    s: Seq<(Seq<char>, Node)>,
    key: Seq<char>,
)
    requires
        forall|i: int| 0 <= i < s.len() ==> (#[trigger] s[i]).0 != key,
    ensures
        table::lookup(native_hooks::augmented_members(t, s), key) == table::lookup(t, key),
    decreases s.len(),
{
    if s.len() > 0 {
        let front = s.drop_last();
        assert forall|i: int| 0 <= i < front.len() implies (#[trigger] front[i]).0 != key by {
            assert(s[i].0 != key);
        }
        lemma_augmented_elsewhere(t, front, key);
        let so_far = native_hooks::augmented_members(t, front);
        let last = s.last().0;
        assert(s[s.len() - 1].0 != key);
        match table::lookup(so_far, last) {
            Some(existing) => {
                table::law_put_then_lookup(
                    so_far,
                    last,
                    native_hooks::merged(existing, s.last().1),
                    key,
                );
            },
            None => {
                table::law_put_then_lookup(so_far, last, s.last().1, key);
            },
        }
    }
}

/// An augmentation adds what is not there: each of its fields that is not reserved and that
/// the payload lacks.
pub proof fn law_augmentation_adds_what_is_missing(
    target: Node,
    fields: Seq<(Seq<char>, Node)>,
    i: int,
)
    requires
        target is Object,
        table::has_no_key_twice(fields),
        0 <= i < fields.len(),
        !native_hooks::is_reserved(fields[i].0),
        json::member(target, fields[i].0) is None,
    ensures
        json::member(native_hooks::augmented(target, Some(Node::Object(fields))), fields[i].0)
            == Some(fields[i].1),
{
    match target {
        Node::Object(t) => lemma_augmented_at(t, fields, i),
        _ => {},
    }
}

/// The metadata of a project is looked for upwards until a file with an object is found or
/// one that cannot be read.
pub proof fn law_metadata_is_looked_for(content: Result<Node, Seq<char>>)
    ensures
        match content {
            Ok(Node::Object(m)) => native_hooks::metadata_step(content) == MetadataStepView::Found(
                Node::Object(m),
            ),
            Ok(_) => native_hooks::metadata_step(content) is Up,
            Err(_) => native_hooks::metadata_step(content) is Stop,
        },
{
}

proof fn lemma_merged_elsewhere(
    t: Seq<(Seq<char>, Node)>,
    s: Seq<(Seq<char>, Node)>,
    key: Seq<char>,
)
    requires
        forall|i: int| 0 <= i < s.len() ==> (#[trigger] s[i]).0 != key,
    ensures
        table::lookup(native_hooks::merged_members(t, s), key) == table::lookup(t, key),
    decreases s.len(),
{
    if s.len() > 0 {
        let front = s.drop_last();
        assert forall|i: int| 0 <= i < front.len() implies (#[trigger] front[i]).0 != key by {
            assert(s[i].0 != key);
        }
        lemma_merged_elsewhere(t, front, key);
        let so_far = native_hooks::merged_members(t, front);
        let last = s.last().0;
        assert(s[s.len() - 1].0 != key);
        match table::lookup(so_far, last) {
            Some(existing) => {
                table::law_put_then_lookup(
                    so_far,
                    last,
                    native_hooks::merged(existing, s.last().1),
                    key,
                );
            },
            None => {
                table::law_put_then_lookup(so_far, last, s.last().1, key);
            },
        }
    }
}

/// What a key holds once a value is added to what was there: what was there where there was
/// something, grown where both are objects, and otherwise the value.
pub open spec fn grown(before: Option<Node>, value: Node) -> Node {
    match before {
        Some(Node::Object(m)) => match value {
            Node::Object(_) => native_hooks::merged(Node::Object(m), value),
            _ => Node::Object(m),
        },
        Some(existing) => existing,
        None => value,
    }
}

proof fn lemma_merged_at(t: Seq<(Seq<char>, Node)>, s: Seq<(Seq<char>, Node)>, i: int)
    requires
        0 <= i < s.len(),
        table::has_no_key_twice(s),
    ensures
        table::lookup(native_hooks::merged_members(t, s), s[i].0) == Some(
            grown(table::lookup(t, s[i].0), s[i].1),
        ),
    decreases s.len(),
{
    let front = s.drop_last();
    let key = s[i].0;
    assert(table::has_no_key_twice(front)) by {
        assert forall|a: int, b: int|
            #![trigger front[a], front[b]]
            0 <= a < b < front.len() implies front[a].0 != front[b].0 by {
            assert(s[a].0 != s[b].0);
        }
    }
    let so_far = native_hooks::merged_members(t, front);
    let last = s.last().0;
    if i == s.len() - 1 {
        assert forall|j: int| 0 <= j < front.len() implies (#[trigger] front[j]).0 != key by {
            assert(s[j].0 != s[i].0);
        }
        lemma_merged_elsewhere(t, front, key);
    } else {
        assert(front[i] == s[i]);
        lemma_merged_at(t, front, i);
        assert(s[i].0 != s[s.len() - 1].0);
    }
    match table::lookup(so_far, last) {
        Some(existing) => {
            table::law_put_then_lookup(
                so_far,
                last,
                native_hooks::merged(existing, s.last().1),
                key,
            );
        },
        None => {
            table::law_put_then_lookup(so_far, last, s.last().1, key);
        },
    }
}

/// Merging an object into another adds each field that is missing, and grows those that are
/// objects in both.
pub proof fn law_merge_adds_what_is_missing(
    t: Seq<(Seq<char>, Node)>,
    fields: Seq<(Seq<char>, Node)>,
    i: int,
)
    requires
        table::has_no_key_twice(fields),
        0 <= i < fields.len(),
    ensures
        json::member(
            native_hooks::merged(Node::Object(t), Node::Object(fields)),
            fields[i].0,
        ) == Some(grown(table::lookup(t, fields[i].0), fields[i].1)),
{
    lemma_merged_at(t, fields, i);
}

} // verus!
