//! Event routing for coding-session notifications: typed events, route
//! resolution, rendering and the decisions of the monitors that feed them.
pub mod cli;
pub mod cli_laws;
pub mod clock;
pub mod codec;
pub mod compat;
pub mod compat_laws;
pub mod components;
pub mod compose;
pub mod config;
pub mod config_rules;
pub mod config_rules_laws;
pub mod cron;
pub mod cron_laws;
pub mod daemon;
pub mod daemon_laws;
pub mod default_text;
pub mod default_text_laws;
pub mod discord;
pub mod discord_laws;
pub mod dispatch;
pub mod dispatch_laws;
pub mod dispatcher;
pub mod dynamic;
pub mod dynamic_laws;
pub mod editor;
pub mod editor_laws;
pub mod events;
pub mod events_laws;
pub mod glob;
pub mod hook_install;
pub mod hook_install_laws;
pub mod identity;
pub mod json;
pub mod json_laws;
pub mod keywords;
pub mod labels;
pub mod lifecycle;
pub mod lifecycle_laws;
pub mod monitor;
pub mod monitor_laws;
pub mod native_hooks;
pub mod native_hooks_laws;
pub mod normalize;
pub mod normalize_laws;
pub mod numeral;
pub mod paths;
pub mod pieces;
pub mod poll_laws;
pub mod registry;
pub mod registry_laws;
pub mod render;
pub mod render_laws;
pub mod router;
pub mod router_laws;
pub mod scan;
pub mod scan_laws;
pub mod schedule;
pub mod summarize;
pub mod summarize_laws;
pub mod table;
pub mod table_laws;
pub mod template;
pub mod template_laws;
pub mod text;
pub mod tmux;
pub mod tmux_laws;
pub mod tmux_list;
pub mod tmux_list_laws;
pub mod tmux_wrapper;
pub mod tmux_wrapper_laws;
pub mod toml_text;
pub mod toml_text_laws;
pub mod tree_laws;
pub mod value;
pub mod wire;
pub mod wire_laws;
pub mod workspace;
pub mod workspace_diff;
pub mod workspace_diff_laws;
pub mod workspace_watch;
pub mod workspace_watch_laws;
