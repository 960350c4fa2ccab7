//! TOML texts: reading and writing them with `toml`.
use vstd::prelude::*;
use vstd::string::*;

use crate::compose::cat2;
use crate::table;
use crate::table::{find_entry, set_entry};
use crate::text;

verus! {

/// `toml::Value`: a TOML value on its way from a text or to one.
#[verifier::external_type_specification]
#[verifier::external_body]
pub struct ExToml(toml::Value);

/// What a TOML value is.
pub enum TomlNode {
    /// A truth value.
    Flag(bool),
    /// A table, its keys in order.
    Table(Seq<(Seq<char>, TomlNode)>),
    /// Any other value, in TOML notation.
    Other(Seq<char>),
}

/// The uppermost level of a `toml::Value`.
pub enum TomlParts {
    Flag(bool),
    Table(Vec<(String, TomlValue)>),
    Other,
}

/// What a `toml::Value` holds.
pub uninterp spec fn toml_in(value: toml::Value) -> TomlNode;

/// What TOML a text holds, if it is any.
pub uninterp spec fn toml_read(text: Seq<char>) -> Option<TomlNode>;

/// The text in which a value is written with line breaks, or why it cannot be
/// written.
pub uninterp spec fn toml_pretty(node: TomlNode) -> Result<Seq<char>, Seq<char>>;

/// A TOML value.
pub struct TomlValue {
    pub inner: toml::Value,
}

impl View for TomlValue {
    type V = TomlNode;

    open spec fn view(&self) -> TomlNode {
        toml_in(self.inner)
    }
}

/// The value that is given by its uppermost level.
pub open spec fn toml_of_parts(parts: TomlParts) -> TomlNode {
    match parts {
        TomlParts::Flag(b) => TomlNode::Flag(b),
        TomlParts::Table(e) => TomlNode::Table(table::pairs(e@)),
        TomlParts::Other => TomlNode::Other(Seq::empty()),
    }
}

/// The variants of `toml::Value`, told apart as far as they matter here. A table
/// is a `toml::Table`, which holds its entries in the order of the keys.
#[verifier::external_body]
pub(crate) fn unpack_toml(value: &toml::Value) -> (r: TomlParts)
    ensures
        r !is Other ==> toml_of_parts(r) == toml_in(*value),
        r is Other ==> toml_in(*value) is Other,
        r matches TomlParts::Table(e) ==> table::in_order(table::pairs(e@)),
{
    match value.clone() {
        toml::Value::Boolean(b) => TomlParts::Flag(b),
        toml::Value::Table(t) => TomlParts::Table(
            t.into_iter().map(|(key, inner)| (key, TomlValue { inner })).collect(),
        ),
        _ => TomlParts::Other,
    }
}

/// `toml::Value::Boolean`: a truth value.
#[verifier::external_body]
pub(crate) fn toml_flag(flag: bool) -> (r: toml::Value)
    ensures
        toml_in(r) == TomlNode::Flag(flag),
{
    toml::Value::Boolean(flag)
}

/// `toml::Value::Table`: the table of some entries. A `toml::Table` keeps the
/// last of the entries with one key and holds them in the order of the keys.
#[verifier::external_body]
pub(crate) fn toml_table(entries: Vec<(String, TomlValue)>) -> (r: toml::Value)
    ensures
        toml_in(r) == TomlNode::Table(table::collected(table::pairs(entries@))),
{
    toml::Value::Table(entries.into_iter().map(|(key, value)| (key, value.inner)).collect())
}

/// `str::parse` into a `toml::Value`: the value that a text holds.
#[verifier::external_body]
pub(crate) fn parse_toml(text: &str) -> (r: Option<toml::Value>)
    ensures
        (match r {
            Some(v) => Some(toml_in(v)),
            None => None,
        }) == toml_read(text@),
{
    text.parse::<toml::Value>().ok()
}

/// `toml::to_string_pretty`: the text in which a value is written, or the
/// message of the error.
#[verifier::external_body]
pub(crate) fn write_toml(value: &toml::Value) -> (r: Result<String, String>)
    ensures
        text::text_result(r) == toml_pretty(toml_in(*value)),
{
    toml::to_string_pretty(value).map_err(|e| e.to_string())
}

// ---------------------------------------------------------------------------
// Settings
// ---------------------------------------------------------------------------

/// A table without entries.
pub open spec fn no_settings() -> TomlNode {
    TomlNode::Table(Seq::empty())
}

/// The entries of a table that a key leads to; none where the key is missing.
pub open spec fn section(entries: Seq<(Seq<char>, TomlNode)>, key: Seq<char>) -> Option<
    Seq<(Seq<char>, TomlNode)>,
> {
    match table::lookup(entries, key) {
        None => Some(Seq::empty()),
        Some(TomlNode::Table(inner)) => Some(inner),
        Some(_) => None,
    }
}

/// Settings with the hooks of Codex switched on.
pub open spec fn with_codex_hooks(settings: TomlNode) -> Result<TomlNode, Seq<char>> {
    match settings {
        TomlNode::Table(entries) => match section(entries, "features"@) {
            Some(features) => Ok(
                TomlNode::Table(
                    table::put(
                        entries,
                        "features"@,
                        TomlNode::Table(table::put(features, "codex_hooks"@, TomlNode::Flag(true))),
                    ),
                ),
            ),
            None => Err("codex [features] must be a TOML table"@),
        },
        _ => Err("codex config must be a TOML table"@),
    }
}

/// The settings that a text holds; none where it is missing or no TOML.
pub open spec fn settings_in(existing: Option<Seq<char>>) -> TomlNode {
    match existing {
        Some(s) => match toml_read(s) {
            Some(node) => node,
            None => no_settings(),
        },
        None => no_settings(),
    }
}

/// The text of the settings with the hooks of Codex switched on.
pub open spec fn codex_config(existing: Option<Seq<char>>) -> Result<Seq<char>, Seq<char>> {
    match with_codex_hooks(settings_in(existing)) {
        Ok(node) => match toml_pretty(node) {
            Ok(s) => Ok(s + "\n"@),
            Err(e) => Err(e),
        },
        Err(e) => Err(e),
    }
}

/// A value or an error, as they are.
pub open spec fn toml_result(r: Result<toml::Value, String>) -> Result<TomlNode, Seq<char>> {
    match r {
        Ok(v) => Ok(toml_in(v)),
        Err(e) => Err(e@),
    }
}

fn table_with(entries: Vec<(String, TomlValue)>, key: &str, value: toml::Value) -> (r: toml::Value)
    requires
        table::in_order(table::pairs(entries@)),
    ensures
        toml_in(r) == TomlNode::Table(table::put(table::pairs(entries@), key@, toml_in(value))),
{
    let mut entries = entries;
    let ghost before = table::pairs(entries@);
    let ghost node = toml_in(value);
    set_entry(&mut entries, key, TomlValue { inner: value });
    proof {
        table::law_put_keeps_order(before, key@, node);
        table::law_collected_in_order(table::put(before, key@, node));
    }
    toml_table(entries)
}

fn switch_on_codex_hooks(settings: &toml::Value) -> (r: Result<toml::Value, String>)
    ensures
        toml_result(r) == with_codex_hooks(toml_in(*settings)),
{
    match unpack_toml(settings) {
        TomlParts::Table(entries) => {
            let features = match find_entry(&entries, "features") {
                None => {
                    let none: Vec<(String, TomlValue)> = Vec::new();
                    assert(table::pairs(none@) =~= Seq::<(Seq<char>, TomlNode)>::empty());
                    none
                },
                Some(value) => match unpack_toml(&value.inner) {
                    TomlParts::Table(inner) => inner,
                    _ => return Err("codex [features] must be a TOML table".to_owned()),
                },
            };
            let features = table_with(features, "codex_hooks", toml_flag(true));
            Ok(table_with(entries, "features", features))
        },
        _ => Err("codex config must be a TOML table".to_owned()),
    }
}

fn empty_settings() -> (r: toml::Value)
    ensures
        toml_in(r) == no_settings(),
{
    let none: Vec<(String, TomlValue)> = Vec::new();
    assert(table::pairs(none@) =~= Seq::<(Seq<char>, TomlNode)>::empty());
    toml_table(none)
}

/// The text of a Codex configuration with its hooks switched on. `existing` is
/// the text of the present configuration; one that is no TOML is given up.
pub fn codex_config_text(existing: Option<&str>) -> (r: Result<String, String>)
    ensures
        text::text_result(r) == codex_config(text::opt_str(existing)),
{
    let settings = match existing {
        Some(s) => match parse_toml(s) {
            Some(value) => value,
            None => empty_settings(),
        },
        None => empty_settings(),
    };
    match switch_on_codex_hooks(&settings) {
        Ok(value) => match write_toml(&value) {
            Ok(s) => Ok(cat2(s.as_str(), "\n")),
            Err(e) => Err(e),
        },
        Err(e) => Err(e),
    }
}

/// Switching on the hooks of Codex leaves every other setting as it was.
pub proof fn law_codex_hooks_keep_settings(settings: TomlNode, key: Seq<char>, other: Seq<char>)
    requires
        with_codex_hooks(settings) is Ok,
        key != "features"@,
        other != "codex_hooks"@,
    ensures
        ({
            let before = settings->Table_0;
            let after = with_codex_hooks(settings)->Ok_0->Table_0;
            &&& table::lookup(after, key) == table::lookup(before, key)
            &&& section(after, "features"@) matches Some(features) && table::lookup(
                features,
                other,
            ) == table::lookup(section(before, "features"@)->Some_0, other) && table::lookup(
                features,
                "codex_hooks"@,
            ) == Some(TomlNode::Flag(true))
        }),
{
    let before = settings->Table_0;
    let features = section(before, "features"@)->Some_0;
    let inner = table::put(features, "codex_hooks"@, TomlNode::Flag(true));
    table::law_put_then_lookup(features, "codex_hooks"@, TomlNode::Flag(true), other);
    table::law_put_then_lookup(before, "features"@, TomlNode::Table(inner), key);
}

} // verus!
