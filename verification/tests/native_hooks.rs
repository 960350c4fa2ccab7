use clawhip::codec::{parse_json, to_pretty_text};
use clawhip::hook_install::{
    claude_settings_text, codex_hooks_text, install_lines, install_report, install_root,
    project_metadata_text, provider_command, NativeInstallScope, NativeProvider, CODEX_CONFIG,
    CODEX_HOOKS, HOOK_SCRIPT,
};
use clawhip::json::Json;
use clawhip::native_hooks::{
    incoming_event_from_native_hook_json, judge_metadata, map_common_event,
    native_hook_directory, MetadataStep,
};
use clawhip::toml_text::codex_config_text;

fn json(text: &str) -> Json {
    parse_json(text).unwrap()
}

fn assistant() -> String {
    format!("{:?}", NativeProvider::Claude).to_lowercase()
}

fn at<'a>(payload: &'a Json, path: &str) -> Option<&'a str> {
    let mut here = payload;
    for part in path.split('/').skip(1) {
        here = match here.as_array() {
            Some(items) => items.get(part.parse::<usize>().ok()?)?,
            None => here.get(part)?,
        };
    }
    here.as_str()
}

#[test]
fn native_hook_maps_all_shared_events() {
    let cases = [
        ("SessionStart", "session.started"),
        ("PreToolUse", "session.pre-tool-use"),
        ("PostToolUse", "session.post-tool-use"),
        ("UserPromptSubmit", "session.user-prompt-submit"),
        ("Stop", "session.finished"),
    ];
    let assistant = assistant();

    for (event_name, expected_kind) in cases {
        let payload = json(&format!(
            r#"{{
                "provider": "{assistant}-code",
                "repo_path": "/repo/clawhip",
                "worktree_path": "/repo/clawhip/.worktrees/issue-1",
                "repo_name": "clawhip",
                "project": "clawhip",
                "event_name": "{event_name}",
                "event_payload": {{"session_id": "sess-1"}}
            }}"#
        ));
        let event =
            incoming_event_from_native_hook_json(&payload, None, &assistant).expect("event");
        assert_eq!(event.kind, expected_kind);
        assert_eq!(at(&event.payload, "/provider"), Some(assistant.as_str()));
        assert_eq!(at(&event.payload, "/repo_name"), Some("clawhip"));
    }
}

#[test]
fn loads_project_metadata_from_directory() {
    let payload = json(
        r#"{
            "provider": "codex",
            "directory": "/tmp/repo/nested/worktree",
            "event_name": "Stop",
            "event_payload": {}
        }"#,
    );
    assert_eq!(native_hook_directory(&payload).as_deref(), Some("/tmp/repo/nested/worktree"));
    let content = parse_json(r#"{ "project": "realign-hooks", "repo_name": "clawhip" }"#);
    let MetadataStep::Found(stored) = judge_metadata(content) else {
        panic!("expected metadata");
    };
    let event = incoming_event_from_native_hook_json(&payload, Some(&stored), &assistant())
        .expect("event");

    assert_eq!(at(&event.payload, "/project"), Some("realign-hooks"));
    assert_eq!(at(&event.payload, "/repo_name"), Some("clawhip"));
    assert_eq!(at(&event.payload, "/project_identity/project"), Some("realign-hooks"));
}

#[test]
fn augmentation_cannot_override_core_fields() {
    let payload = json(
        r#"{
            "provider": "codex",
            "directory": "/repo/clawhip",
            "event_name": "UserPromptSubmit",
            "event_payload": {},
            "augmentation": {
                "provider": "evil",
                "repo_name": "evil",
                "summary": "extra",
                "context": { "custom": true, "provider": "evil" }
            }
        }"#,
    );
    let event =
        incoming_event_from_native_hook_json(&payload, None, &assistant()).expect("event");

    assert_eq!(at(&event.payload, "/provider"), Some("codex"));
    assert_eq!(at(&event.payload, "/repo_name"), Some("clawhip"));
    assert_eq!(at(&event.payload, "/summary"), Some("extra"));
    assert_eq!(at(&event.payload, "/context/provider"), Some("codex"));
    assert_eq!(
        event.payload.pointer("/context/custom").and_then(Json::as_bool),
        Some(true)
    );
}

#[test]
fn unknown_and_missing_events_are_refused() {
    let refused = |text: &str| {
        incoming_event_from_native_hook_json(&json(text), None, "codex").unwrap_err()
    };
    assert_eq!(refused("{}"), "missing native hook event name");
    assert_eq!(
        refused(r#"{"event_name":"Nap"}"#),
        "unsupported native hook event 'Nap'"
    );
    assert_eq!(map_common_event("Stop"), Some("finished"));
    assert_eq!(map_common_event("Nap"), None);
}

#[test]
fn install_project_scope_writes_provider_native_files() {
    let assistant = assistant();
    let root = install_root(
        NativeInstallScope::Project,
        &Some("/tmp/repo".into()),
        "/elsewhere",
        &None,
    )
    .expect("root");
    let report =
        install_report(NativeProvider::All, NativeInstallScope::Project, &root, &assistant);
    assert_eq!(
        report.claude_settings.as_deref(),
        Some(format!("/tmp/repo/.{assistant}/settings.json").as_str())
    );
    assert_eq!(report.codex_config.as_deref(), Some("/tmp/repo/.codex/config.toml"));
    assert_eq!(report.codex_hooks.as_deref(), Some("/tmp/repo/.codex/hooks.json"));
    assert_eq!(install_lines(&report).len(), 7);

    let command = provider_command(
        &root,
        NativeInstallScope::Project,
        NativeProvider::Codex,
        &assistant,
    );
    assert!(command.ends_with("--provider codex'"));
    let codex_hooks =
        json(&codex_hooks_text(&format!("{root}/{CODEX_HOOKS}"), None, &command).unwrap());
    assert!(codex_hooks.pointer("/hooks/SessionStart").and_then(Json::as_array).is_some());
    assert!(codex_hooks.pointer("/hooks/Stop").and_then(Json::as_array).is_some());
    assert!(codex_config_text(None).unwrap().contains("codex_hooks = true"));
    let metadata = json(&project_metadata_text(&root, &assistant));
    assert_eq!(at(&metadata, "/project"), Some("repo"));
    assert_eq!(at(&metadata, "/providers/0"), Some(assistant.as_str()));
}

#[test]
fn install_global_scope_writes_user_level_provider_files() {
    let assistant = assistant();
    let root = install_root(NativeInstallScope::Global, &None, "/work", &Some("/home/me".into()))
        .expect("root");
    let report =
        install_report(NativeProvider::Claude, NativeInstallScope::Global, &root, &assistant);

    assert_eq!(report.root, "/home/me");
    assert!(report.claude_settings.is_some());
    assert_eq!(report.hook_script, format!("/home/me/{HOOK_SCRIPT}"));
    assert_eq!(report.codex_hooks, None);
    assert_eq!(report.codex_config, None);
    let command = provider_command(
        &root,
        NativeInstallScope::Global,
        NativeProvider::Claude,
        &assistant,
    );
    assert_eq!(
        command,
        format!("node \"/home/me/{HOOK_SCRIPT}\" --provider {assistant}")
    );
    assert!(install_root(NativeInstallScope::Global, &None, "/work", &None).is_err());
}

#[test]
fn hooks_are_added_once() {
    let text = claude_settings_text("/s.json", Some(r#"{"theme":"dark"}"#), "run me").unwrap();
    let settings = json(&text);
    assert_eq!(at(&settings, "/theme"), Some("dark"));
    assert_eq!(at(&settings, "/hooks/Stop/0/hooks/0/command"), Some("run me"));
    let again = claude_settings_text("/s.json", Some(&text), "run me").unwrap();
    assert_eq!(to_pretty_text(&json(&again)), to_pretty_text(&settings));
}

#[test]
fn codex_settings_keep_what_they_hold() {
    let text = codex_config_text(Some("model = \"o3\"\n[features]\nother = true\n")).unwrap();
    assert!(text.contains("model = \"o3\""));
    assert!(text.contains("other = true"));
    assert!(text.contains("codex_hooks = true"));
    assert!(codex_config_text(Some("features = 1\n")).is_err());
    assert_eq!(CODEX_CONFIG, ".codex/config.toml");
}

#[test]
fn augmentation_decides_nothing() {
    let bare = r#"{"provider":"codex","event_name":"Stop","cwd":"/repo/clawhip","session_id":"s-1"}"#;
    let more = r#"{"provider":"codex","event_name":"Stop","cwd":"/repo/clawhip","session_id":"s-1",
        "augmentation":{"provider":"other","session_id":"s-2","note":"more",
            "context":{"session_id":"s-3","provider":"other","branch":"main"}}}"#;
    let a = incoming_event_from_native_hook_json(&json(bare), None, &assistant()).unwrap();
    let b = incoming_event_from_native_hook_json(&json(more), None, &assistant()).unwrap();
    assert_eq!(a.kind, "session.finished");
    assert_eq!(b.kind, a.kind);
    for path in
        ["/provider", "/session_id", "/directory", "/status", "/context/session_id", "/context/provider"]
    {
        assert!(at(&a.payload, path).is_some(), "{path}");
        assert_eq!(at(&a.payload, path), at(&b.payload, path), "{path}");
    }
    assert_eq!(at(&a.payload, "/note"), None);
    assert_eq!(at(&b.payload, "/note"), Some("more"));
    assert_eq!(at(&a.payload, "/context/branch"), None);
    assert_eq!(at(&b.payload, "/context/branch"), Some("main"));
    let refused = |text: &str| {
        incoming_event_from_native_hook_json(&json(text), None, "codex").unwrap_err()
    };
    assert_eq!(
        refused(r#"{"event_name":"Pause"}"#),
        refused(r#"{"event_name":"Pause","augment":{"event_name":"Stop"}}"#)
    );
}
