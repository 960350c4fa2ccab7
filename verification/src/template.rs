//! The tokens of an event and the templates that use them.
use vstd::prelude::*;
use vstd::string::*;

use crate::codec;
use crate::codec::to_text;
use crate::compose::cat3;
use crate::events;
use crate::events::{EventView, IncomingEvent};
use crate::json;
use crate::json::{Json, Node};
use crate::numeral::number_notation;
use crate::scan;
use crate::scan::replace;
use crate::table;
use crate::table::{find_entry, set_entry};
use crate::text;

verus! {

broadcast use crate::json::group_trees;

// ---------------------------------------------------------------------------
// Tokens
// ---------------------------------------------------------------------------

/// The name of a token below another.
pub open spec fn token_below(prefix: Seq<char>, key: Seq<char>) -> Seq<char> {
    if prefix.len() == 0 {
        key
    } else {
        prefix + "."@ + key
    }
}

/// The text of a truth value.
pub open spec fn flag_text(b: bool) -> Seq<char> {
    if b {
        "true"@
    } else {
        "false"@
    }
}

/// The tokens that a value adds under a name: one for each text, number, truth
/// value, null or list in it, named by the keys that lead to it.
pub open spec fn flattened(
    prefix: Seq<char>,
    node: Node,
    tokens: Seq<(Seq<char>, Seq<char>)>,
) -> Seq<(Seq<char>, Seq<char>)>
    decreases node,
{
    match node {
        Node::Object(m) => flattened_members(prefix, m, tokens),
        Node::List(_) => table::put(tokens, prefix, codec::json_text(node)),
        Node::Text(s) => table::put(tokens, prefix, s),
        Node::Bool(b) => table::put(tokens, prefix, flag_text(b)),
        Node::Number(n) => table::put(tokens, prefix, n.text),
        Node::Null => table::put(tokens, prefix, "null"@),
    }
}

/// The tokens that the members of an object add, one after the other.
pub open spec fn flattened_members(
    prefix: Seq<char>,
    m: Seq<(Seq<char>, Node)>,
    tokens: Seq<(Seq<char>, Seq<char>)>,
) -> Seq<(Seq<char>, Seq<char>)>
    decreases m,
{
    if m.len() == 0 {
        tokens
    } else {
        flattened(
            token_below(prefix, m.last().0),
            m.last().1,
            flattened_members(prefix, m.drop_last(), tokens),
        )
    }
}

/// The tokens with `name` standing for what `from` stands for, where `from` is
/// there and `name` is not.
pub open spec fn with_alias(
    tokens: Seq<(Seq<char>, Seq<char>)>,
    name: Seq<char>,
    from: Seq<char>,
) -> Seq<(Seq<char>, Seq<char>)> {
    match (table::lookup(tokens, name), table::lookup(tokens, from)) {
        (None, Some(value)) => table::put(tokens, name, value),
        _ => tokens,
    }
}

/// The tokens of an event: its kind, what its payload holds, and the names by
/// which the same thing is known in other families of events.
pub open spec fn context_of(event: EventView) -> Seq<(Seq<char>, Seq<char>)> {
    let kind = events::canonical_kind(event.kind);
    let tokens = flattened(Seq::empty(), event.payload, table::put(Seq::empty(), "kind"@, kind));
    let tokens = with_alias(tokens, "repo_name"@, "repo"@);
    let tokens = with_alias(tokens, "session_name"@, "session"@);
    with_alias(tokens, "session"@, "session_name"@)
}

fn flatten_json(prefix: &str, value: &Json, out: &mut Vec<(String, String)>)
    ensures
        table::pairs(final(out)@) == flattened(prefix@, value@, table::pairs(old(out)@)),
    decreases value,
{
    match value {
        Json::Object(entries) => {
            let ghost m = json::members(entries@);
            let ghost before = table::pairs(out@);
            let mut i: usize = 0;
            while i < entries.len()
                invariant
                    i <= entries.len(),
                    value matches Json::Object(v) && v == entries,
                    m == json::members(entries@),
                    table::pairs(out@) == flattened_members(prefix@, m.take(i as int), before),
                decreases entries.len() - i,
            {
                assert(decreases_to!(value => entries@[i as int].1));
                assert(m.take(i + 1).drop_last() =~= m.take(i as int));
                let key = entries[i].0.as_str();
                if prefix.is_empty() {
                    flatten_json(key, &entries[i].1, out);
                } else {
                    let name = cat3(prefix, ".", key);
                    flatten_json(name.as_str(), &entries[i].1, out);
                }
                i = i + 1;
            }
            assert(m.take(i as int) =~= m);
        },
        Json::List(_) => {
            set_entry(out, prefix, to_text(value));
        },
        Json::Text(s) => {
            set_entry(out, prefix, s.clone());
        },
        Json::Bool(b) => {
            let word = if *b {
                "true"
            } else {
                "false"
            };
            set_entry(out, prefix, word.to_owned());
        },
        Json::Number(n) => {
            set_entry(out, prefix, number_notation(n));
        },
        Json::Null => {
            set_entry(out, prefix, "null".to_owned());
        },
    }
}

fn add_alias(tokens: &mut Vec<(String, String)>, name: &str, from: &str)
    ensures
        table::pairs(final(tokens)@) == with_alias(table::pairs(old(tokens)@), name@, from@),
{
    if find_entry(tokens, name).is_none() {
        let found: Option<String> = match find_entry(tokens, from) {
            Some(value) => Some(value.clone()),
            None => None,
        };
        match found {
            Some(value) => set_entry(tokens, name, value),
            None => {},
        }
    }
}

impl IncomingEvent {
    /// The tokens of this event, in the order of their names.
    pub fn template_context(&self) -> (r: Vec<(String, String)>)
        ensures
            table::pairs(r@) == context_of(self@),
    {
        let mut context: Vec<(String, String)> = Vec::new();
        assert(table::pairs(context@) =~= Seq::<(Seq<char>, Seq<char>)>::empty());
        set_entry(&mut context, "kind", self.canonical_kind().to_owned());
        let none = String::new();
        flatten_json(none.as_str(), &self.payload, &mut context);
        add_alias(&mut context, "repo_name", "repo");
        add_alias(&mut context, "session_name", "session");
        add_alias(&mut context, "session", "session_name");
        context
    }
}

// ---------------------------------------------------------------------------
// Templates
// ---------------------------------------------------------------------------

/// A template with each token in braces, one name after the other, giving way
/// to what the name stands for.
pub open spec fn filled(template: Seq<char>, tokens: Seq<(Seq<char>, Seq<char>)>) -> Seq<char>
    decreases tokens.len(),
{
    if tokens.len() == 0 {
        template
    } else {
        scan::replaced(
            filled(template, tokens.drop_last()),
            "{"@ + tokens.last().0 + "}"@,
            tokens.last().1,
        )
    }
}

/// Fills the tokens of a template.
pub fn render_template(template: &str, context: &Vec<(String, String)>) -> (r: String)
    ensures
        r@ == filled(template@, table::pairs(context@)),
{
    let mut rendered: String = template.to_owned();
    let ghost all = table::pairs(context@);
    let mut i: usize = 0;
    while i < context.len()
        invariant
            i <= context.len(),
            all == table::pairs(context@),
            rendered@ == filled(template@, all.take(i as int)),
        decreases context.len() - i,
    {
        assert(all.take(i + 1).drop_last() =~= all.take(i as int));
        let pattern = cat3("{", context[i].0.as_str(), "}");
        proof {
            reveal_strlit("{");
        }
        rendered = replace(rendered.as_str(), pattern.as_str(), context[i].1.as_str());
        i = i + 1;
    }
    assert(all.take(i as int) =~= all);
    rendered
}

/// A template without an opening brace holds no token: it is rendered as it
/// stands, whatever the tokens are.
pub proof fn law_template_without_tokens(
    template: Seq<char>,
    tokens: Seq<(Seq<char>, Seq<char>)>,
)
    requires
        !template.contains('{'),
    ensures
        filled(template, tokens) == template,
    decreases tokens.len(),
{
    if tokens.len() > 0 {
        law_template_without_tokens(template, tokens.drop_last());
        reveal_strlit("{");
        let pattern = "{"@ + tokens.last().0 + "}"@;
        assert(pattern[0] == '{');
        lemma_nothing_to_replace(template, pattern, tokens.last().1);
    }
}

proof fn lemma_nothing_to_replace(s: Seq<char>, from: Seq<char>, to: Seq<char>)
    requires
        from.len() > 0,
        !s.contains(from[0]),
    ensures
        scan::replaced(s, from, to) == s,
    decreases s.len(),
{
    if s.len() >= from.len() {
        assert(s.contains(s[0]));
        if text::begins_with(s, from) {
            assert(s.subrange(0, from.len() as int)[0] == s[0]);
        }
        assert forall|i: int| 0 <= i < s.skip(1).len() implies s.skip(1)[i] != from[0] by {
            assert(s.contains(s[i + 1]));
        }
        lemma_nothing_to_replace(s.skip(1), from, to);
        assert(seq![s[0]] + s.skip(1) =~= s);
    }
}

} // verus!
