//! How the hooks of Codex are switched on.
use vstd::prelude::*;
use vstd::string::*;

use crate::table;
use crate::toml_text;
use crate::toml_text::TomlNode;

verus! {

/// What settings hold under a key.
pub open spec fn under(settings: TomlNode, key: Seq<char>) -> Option<TomlNode> {
    match settings {
        TomlNode::Table(entries) => table::lookup(entries, key),
        _ => None,
    }
}

/// The hooks of Codex are switched on in the settings that a text holds, or in empty ones where
/// it holds none; settings that are no table, or whose features are none, are refused.
pub proof fn law_codex_hooks_are_switched_on(existing: Option<Seq<char>>)
    ensures
        ({
            let stored = match existing {
                Some(s) => match toml_text::toml_read(s) {
                    Some(node) => node,
                    None => TomlNode::Table(Seq::empty()),
                },
                None => TomlNode::Table(Seq::empty()),
            };
            let r = toml_text::codex_config(existing);
            match stored {
                TomlNode::Table(_) => match under(stored, "features"@) {
                    Some(TomlNode::Table(_)) => switched_on(r),
                    None => switched_on(r),
                    Some(_) => r == Err::<Seq<char>, Seq<char>>(
                        "codex [features] must be a TOML table"@,
                    ),
                },
                _ => r == Err::<Seq<char>, Seq<char>>("codex config must be a TOML table"@),
            }
        }),
{
    let stored = toml_text::settings_in(existing);
    match stored {
        TomlNode::Table(entries) => {
            let features = match table::lookup(entries, "features"@) {
                Some(TomlNode::Table(inner)) => inner,
                _ => Seq::empty(),
            };
            let set = table::put(features, "codex_hooks"@, TomlNode::Flag(true));
            table::law_put_then_lookup(
                features,
                "codex_hooks"@,
                TomlNode::Flag(true),
                "codex_hooks"@,
            );
            table::law_put_then_lookup(
                entries,
                "features"@,
                TomlNode::Table(set),
                "features"@,
            );
            match toml_text::with_codex_hooks(stored) {
                Ok(after) => {
                    assert(is_on(after));
                },
                Err(_) => {},
            }
        },
        _ => {},
    }
}

/// Settings in which the hooks of Codex are switched on.
pub open spec fn is_on(settings: TomlNode) -> bool {
    match under(settings, "features"@) {
        Some(features) => under(features, "codex_hooks"@) == Some(TomlNode::Flag(true)),
        None => false,
    }
}

/// What is written are settings with the hooks switched on, with a line feed behind them.
pub open spec fn switched_on(r: Result<Seq<char>, Seq<char>>) -> bool {
    exists|after: TomlNode| #[trigger]
        is_on(after) && match (toml_text::toml_pretty(after), r) {
            (Ok(s), Ok(written)) => written == s + "\n"@,
            (Err(e), Err(said)) => said == e,
            _ => false,
        }
}

} // verus!
