use clawhip::codec::{parse_json, to_pretty_text, to_text};
use clawhip::compose::{join, number};
use clawhip::glob::glob_match;
use clawhip::identity::{current_timestamp_rfc3339, fresh_event_id, timestamp_or_epoch};
use clawhip::json::Json;
use clawhip::keywords::{collect_gained_hits, collect_keyword_hits};
use clawhip::paths::{file_name_of, join_path, parent_of, parent_or_dot};
use clawhip::scan::{
    after_part, before, lines_of, lower, parse_u64, parse_u8, replace, same_ignoring_case,
    split_at_each, split_once, until_char, words_of,
};
use clawhip::table::{find_entry, remove_entry, set_entry};
use clawhip::text::{contains, ends_with, head, starts_with, strip_prefix, trim, trim_end};

#[test]
fn patterns_with_wildcards() {
    assert!(glob_match("tmux.*", "tmux.keyword"));
    assert!(glob_match("*keyword", "tmux.keyword"));
    assert!(glob_match("t*.k*d", "tmux.keyword"));
    assert!(glob_match("*", ""));
    assert!(glob_match("a", "a"));
    assert!(!glob_match("a", "b"));
    assert!(!glob_match("tmux.*", "git.commit"));
    assert!(!glob_match("a*b*c", "acb"));
    assert!(!glob_match("*a*b", "ab c"));
}

#[test]
fn json_is_read_and_written() {
    let value = parse_json(r#"{"b":[1,-2,0.5,true,null],"a":"x\ny"}"#).unwrap();
    assert_eq!(to_text(&value), r#"{"a":"x\ny","b":[1,-2,0.5,true,null]}"#);
    assert_eq!(
        to_pretty_text(&parse_json(r#"{"a":[1]}"#).unwrap()),
        "{\n  \"a\": [\n    1\n  ]\n}"
    );
    assert!(parse_json("{").is_err());
    let items = value.items("b").unwrap();
    assert_eq!(items[0].as_u64(), Some(1));
    assert_eq!(items[1].as_u64(), None);
    assert!(items[4].is_null());
    assert!(value.same_as(&parse_json(r#"{"a":"x\ny","b":[1,-2,0.5,true,null]}"#).unwrap()));
}

#[test]
fn objects_are_built_in_the_order_of_their_keys() {
    let value = Json::object().with_text("b", "x").with_count("a", 7).with_flag("c", false);
    assert_eq!(to_text(&value), r#"{"a":7,"b":"x","c":false}"#);
    let value = value.with_opt_text("d", &None).with_text_or_null("e", &None);
    assert_eq!(to_text(&value), r#"{"a":7,"b":"x","c":false,"e":null}"#);
}

#[test]
fn texts_are_taken_apart() {
    assert_eq!(trim(" \u{a0}a b\t\n"), "a b");
    assert_eq!(trim_end(" a \n"), " a");
    assert!(starts_with("abc", "ab") && ends_with("abc", "bc") && contains("abc", "b"));
    assert_eq!(strip_prefix("abc", "ab"), Some("c"));
    assert_eq!(strip_prefix("abc", "b"), None);
    assert_eq!(head("ünder", 2), "ün");
    assert_eq!(lines_of("a\r\nb\n"), vec!["a", "b"]);
    assert_eq!(words_of(" a  b "), vec!["a", "b"]);
    assert_eq!(split_at_each("a|b|", '|'), vec!["a", "b", ""]);
    assert_eq!(split_once("a=b=c", '='), Some(("a", "b=c")));
    assert_eq!(replace("aXbX", "X", "--"), "a--b--");
    assert_eq!(after_part("x/runs/7", "/runs/"), Some("7"));
    assert_eq!(until_char("7/jobs", '/'), "7");
    assert_eq!(join(&vec!["a".into(), "b".into()], ", "), "a, b");
}

#[test]
fn numbers_and_cases() {
    assert_eq!(number(u64::MAX), "18446744073709551615");
    assert_eq!(parse_u64("+7"), Some(7));
    assert_eq!(parse_u64("18446744073709551616"), None);
    assert_eq!(parse_u8("256"), None);
    assert_eq!(parse_u8("-1"), None);
    assert_eq!(lower("ÄBC"), "Äbc");
    assert!(same_ignoring_case("RaW", "raw"));
    assert!(before("a", "b") && before("a", "ab") && !before("b", "a"));
}

#[test]
fn tables_keep_one_value_for_a_key() {
    let mut table: Vec<(String, String)> = Vec::new();
    set_entry(&mut table, "b", "1".to_string());
    set_entry(&mut table, "a", "2".to_string());
    set_entry(&mut table, "b", "3".to_string());
    assert_eq!(table.len(), 2);
    assert_eq!(table[0].0, "a");
    assert_eq!(find_entry(&table, "b").map(String::as_str), Some("3"));
    assert_eq!(remove_entry(&mut table, "b").as_deref(), Some("3"));
    assert_eq!(find_entry(&table, "b"), None);
}

#[test]
fn paths_are_joined_and_taken_apart() {
    assert_eq!(file_name_of("/a/b.json").as_deref(), Some("b.json"));
    assert_eq!(file_name_of("/"), None);
    assert_eq!(join_path("/a", "b"), "/a/b");
    assert_eq!(join_path("/a/", "b"), "/a/b");
    assert_eq!(join_path("/a", "/b"), "/b");
    assert_eq!(parent_of("/a/b").as_deref(), Some("/a"));
    assert_eq!(parent_or_dot("config.toml"), "");
    assert_eq!(parent_or_dot("/"), ".");
}

#[test]
fn keywords_are_found_in_new_lines() {
    let keywords = vec!["Error".to_string()];
    let hits = collect_keyword_hits("error: a", "error: a\nERROR: b", &keywords);
    assert_eq!(hits.len(), 1);
    assert_eq!(hits[0].line, "ERROR: b");
    assert!(collect_keyword_hits("error: a", "error: a\nerror: a", &keywords).is_empty());
    assert_eq!(collect_gained_hits("error: a", "error: a\nerror: a", &keywords).len(), 1);
    assert!(collect_gained_hits("error: a", "error: a", &keywords).is_empty());
}

#[test]
fn identifiers_are_fresh() {
    let a = fresh_event_id();
    let b = fresh_event_id();
    assert_eq!(a.len(), 36);
    assert_ne!(a, b);
    for (i, c) in a.chars().enumerate() {
        let ok = match i {
            8 | 13 | 18 | 23 => c == '-',
            14 => c == '4',
            19 => ['8', '9', 'a', 'b'].contains(&c),
            _ => c.is_ascii_digit() || ('a'..='f').contains(&c),
        };
        assert!(ok, "{i}: {c}");
    }
    let now = current_timestamp_rfc3339();
    assert!(now.ends_with('Z') && now.contains('T'));
}

#[test]
fn moment_that_cannot_be_written_is_the_epoch() {
    assert_eq!(timestamp_or_epoch(None), "1970-01-01T00:00:00Z");
    assert_eq!(timestamp_or_epoch(Some("2026-04-01T12:00:00.5Z".into())), "2026-04-01T12:00:00.5Z");
}

#[test]
fn present_moment_is_written_in_full() {
    let now: Vec<char> = current_timestamp_rfc3339().chars().collect();
    assert!(now.len() >= 20);
    for (i, c) in now.iter().enumerate() {
        let ok = match i {
            4 | 7 => *c == '-',
            10 => *c == 'T',
            13 | 16 => *c == ':',
            _ if i == now.len() - 1 => *c == 'Z',
            19 => *c == '.',
            _ => c.is_ascii_digit(),
        };
        assert!(ok, "{i}: {c}");
    }
    assert!(now.len() != 21);
    assert!(now[0..4].iter().collect::<String>() >= "2024".to_string());
}
