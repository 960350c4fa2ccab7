//! What the tokens of an event stand for, and how a template is filled in.
use vstd::prelude::*;
use vstd::string::*;

use crate::codec;
use crate::events;
use crate::events::EventView;
use crate::json::Node;
use crate::scan;
use crate::table;
use crate::template;
use crate::text;

verus! {

// ---------------------------------------------------------------------------
// Tokens
// ---------------------------------------------------------------------------

proof fn lemma_below_has_a_point(prefix: Seq<char>, key: Seq<char>, name: Seq<char>)
    requires
        prefix.len() > 0,
        !name.contains('.'),
    ensures
        template::token_below(prefix, key) != name,
        template::token_below(prefix, key).len() > 0,
{
    reveal_strlit(".");
    assert("."@[0] == '.');
    assert(template::token_below(prefix, key)[prefix.len() as int] == '.');
}

proof fn lemma_other_tokens_stay(
    prefix: Seq<char>,
    node: Node,
    tokens: Seq<(Seq<char>, Seq<char>)>,
    name: Seq<char>,
)
    requires
        prefix.len() > 0,
        prefix != name,
        !name.contains('.'),
    ensures
        table::lookup(template::flattened(prefix, node, tokens), name) == table::lookup(
            tokens,
            name,
        ),
    decreases node,
{
    match node {
        Node::Object(m) => lemma_other_members_stay(prefix, m, tokens, name),
        Node::List(_) => table::law_put_then_lookup(tokens, prefix, codec::json_text(node), name),
        Node::Text(s) => table::law_put_then_lookup(tokens, prefix, s, name),
        Node::Bool(b) => table::law_put_then_lookup(
            tokens,
            prefix,
            template::flag_text(b),
            name,
        ),
        Node::Number(n) => table::law_put_then_lookup(tokens, prefix, n.text, name),
        Node::Null => table::law_put_then_lookup(tokens, prefix, "null"@, name),
    }
}

proof fn lemma_other_members_stay(
    prefix: Seq<char>,
    m: Seq<(Seq<char>, Node)>,
    tokens: Seq<(Seq<char>, Seq<char>)>,
    name: Seq<char>,
)
    requires
        prefix.len() > 0,
        !name.contains('.'),
    ensures
        table::lookup(template::flattened_members(prefix, m, tokens), name) == table::lookup(
            tokens,
            name,
        ),
    decreases m,
{
    if m.len() > 0 {
        lemma_other_members_stay(prefix, m.drop_last(), tokens, name);
        lemma_below_has_a_point(prefix, m.last().0, name);
        lemma_other_tokens_stay(
            template::token_below(prefix, m.last().0),
            m.last().1,
            template::flattened_members(prefix, m.drop_last(), tokens),
            name,
        );
    }
}

/// What a value other than an object is told as: a text as it is, a number in its notation, a
/// truth value or null by its word, and a list as JSON.
pub open spec fn told(node: Node) -> Seq<char> {
    match node {
        Node::Text(s) => s,
        Node::Number(n) => n.text,
        Node::Bool(true) => "true"@,
        Node::Bool(false) => "false"@,
        Node::Null => "null"@,
        _ => codec::json_text(node),
    }
}

proof fn lemma_member_is_told(
    m: Seq<(Seq<char>, Node)>,
    tokens: Seq<(Seq<char>, Seq<char>)>,
    i: int,
)
    requires
        0 <= i < m.len(),
        !m[i].0.contains('.'),
        !(m[i].1 is Object),
        forall|j: int| 0 <= j < m.len() ==> (#[trigger] m[j]).0.len() > 0,
        forall|j: int| 0 <= j < m.len() && j != i ==> (#[trigger] m[j]).0 != m[i].0,
    ensures
        table::lookup(template::flattened_members(Seq::empty(), m, tokens), m[i].0) == Some(
            told(m[i].1),
        ),
    decreases m.len(),
{
    let name = m[i].0;
    let front = m.drop_last();
    let before = template::flattened_members(Seq::empty(), front, tokens);
    if i == m.len() - 1 {
        table::law_put_then_lookup(before, name, told(m[i].1), name);
    } else {
        assert(front[i] == m[i]);
        assert forall|j: int| 0 <= j < front.len() implies (#[trigger] front[j]).0.len() > 0 by {
            assert(m[j].0.len() > 0);
        }
        assert forall|j: int| 0 <= j < front.len() && j != i implies (#[trigger] front[j]).0
            != front[i].0 by {
            assert(m[j].0 != m[i].0);
        }
        lemma_member_is_told(front, tokens, i);
        assert(m[m.len() - 1].0.len() > 0 && m[m.len() - 1].0 != name);
        lemma_other_tokens_stay(m.last().0, m.last().1, before, name);
    }
}

proof fn lemma_alias_keeps(
    tokens: Seq<(Seq<char>, Seq<char>)>,
    alias: Seq<char>,
    from: Seq<char>,
    name: Seq<char>,
)
    ensures
        table::lookup(tokens, name) is Some ==> table::lookup(
            template::with_alias(tokens, alias, from),
            name,
        ) == table::lookup(tokens, name),
        name != alias ==> table::lookup(template::with_alias(tokens, alias, from), name)
            == table::lookup(tokens, name),
        table::lookup(tokens, alias) is None ==> table::lookup(
            template::with_alias(tokens, alias, from),
            alias,
        ) == table::lookup(tokens, from),
{
    match table::lookup(tokens, from) {
        Some(value) => {
            table::law_put_then_lookup(tokens, alias, value, name);
            table::law_put_then_lookup(tokens, alias, value, alias);
        },
        None => {},
    }
}

proof fn lemma_context_keeps(event: EventView, name: Seq<char>)
    ensures
        ({
            let kind = events::canonical_kind(event.kind);
            let tokens = template::flattened(
                Seq::empty(),
                event.payload,
                table::put(Seq::empty(), "kind"@, kind),
            );
            table::lookup(tokens, name) is Some ==> table::lookup(
                template::context_of(event),
                name,
            ) == table::lookup(tokens, name)
        }),
{
    let kind = events::canonical_kind(event.kind);
    let a = template::flattened(
        Seq::empty(),
        event.payload,
        table::put(Seq::empty(), "kind"@, kind),
    );
    let b = template::with_alias(a, "repo_name"@, "repo"@);
    let c = template::with_alias(b, "session_name"@, "session"@);
    lemma_alias_keeps(a, "repo_name"@, "repo"@, name);
    lemma_alias_keeps(b, "session_name"@, "session"@, name);
    lemma_alias_keeps(c, "session"@, "session_name"@, name);
}

/// Each member of a payload is a token of its name, told as it is.
pub proof fn law_member_is_a_token(event: EventView, m: Seq<(Seq<char>, Node)>, i: int)
    requires
        event.payload == Node::Object(m),
        0 <= i < m.len(),
        !m[i].0.contains('.'),
        !(m[i].1 is Object),
        forall|j: int| 0 <= j < m.len() ==> (#[trigger] m[j]).0.len() > 0,
        forall|j: int| 0 <= j < m.len() && j != i ==> (#[trigger] m[j]).0 != m[i].0,
    ensures
        table::lookup(template::context_of(event), m[i].0) == Some(told(m[i].1)),
{
    let kind = events::canonical_kind(event.kind);
    let start = table::put(Seq::empty(), "kind"@, kind);
    lemma_member_is_told(m, start, i);
    lemma_context_keeps(event, m[i].0);
}

proof fn lemma_absent_member(
    m: Seq<(Seq<char>, Node)>,
    tokens: Seq<(Seq<char>, Seq<char>)>,
    name: Seq<char>,
)
    requires
        !name.contains('.'),
        forall|j: int| 0 <= j < m.len() ==> (#[trigger] m[j]).0.len() > 0 && m[j].0 != name,
    ensures
        table::lookup(template::flattened_members(Seq::empty(), m, tokens), name)
            == table::lookup(tokens, name),
    decreases m.len(),
{
    if m.len() > 0 {
        let front = m.drop_last();
        assert forall|j: int| 0 <= j < front.len() implies (#[trigger] front[j]).0.len() > 0
            && front[j].0 != name by {
            assert(m[j].0.len() > 0 && m[j].0 != name);
        }
        lemma_absent_member(front, tokens, name);
        assert(m[m.len() - 1].0.len() > 0 && m[m.len() - 1].0 != name);
        lemma_other_tokens_stay(
            m.last().0,
            m.last().1,
            template::flattened_members(Seq::empty(), front, tokens),
            name,
        );
    }
}

/// The kind of an event is a token, unless its payload names one.
pub proof fn law_kind_is_a_token(event: EventView, m: Seq<(Seq<char>, Node)>)
    requires
        event.payload == Node::Object(m),
        forall|j: int| 0 <= j < m.len() ==> (#[trigger] m[j]).0.len() > 0 && m[j].0 != "kind"@,
    ensures
        table::lookup(template::context_of(event), "kind"@) == Some(
            events::canonical_kind(event.kind),
        ),
{
    reveal_strlit("kind");
    let kind = events::canonical_kind(event.kind);
    let start = table::put(Seq::empty(), "kind"@, kind);
    table::law_put_then_lookup(Seq::empty(), "kind"@, kind, "kind"@);
    assert(!"kind"@.contains('.'));
    lemma_absent_member(m, start, "kind"@);
    lemma_context_keeps(event, "kind"@);
}

/// What is not in the payload is no token, but for the names that stand for another: the name
/// of a repository for the repository, and the name of a session for the session and the
/// other way round.
pub proof fn law_other_names_of_tokens(event: EventView, m: Seq<(Seq<char>, Node)>)
    requires
        event.payload == Node::Object(m),
        forall|j: int| 0 <= j < m.len() ==> (#[trigger] m[j]).0.len() > 0,
    ensures
        ({
            let context = template::context_of(event);
            let named = |name: Seq<char>| exists|j: int|
                0 <= j < m.len() && (#[trigger] m[j]).0 == name;
            &&& !named("repo_name"@) ==> table::lookup(context, "repo_name"@) == table::lookup(
                context,
                "repo"@,
            )
            &&& !named("session_name"@) ==> table::lookup(context, "session_name"@)
                == table::lookup(context, "session"@)
            &&& !named("session"@) ==> table::lookup(context, "session"@) == table::lookup(
                context,
                "session_name"@,
            )
        }),
{
    let kind = events::canonical_kind(event.kind);
    let start = table::put(Seq::<(Seq<char>, Seq<char>)>::empty(), "kind"@, kind);
    let a = template::flattened(Seq::empty(), event.payload, start);
    let b = template::with_alias(a, "repo_name"@, "repo"@);
    let c = template::with_alias(b, "session_name"@, "session"@);
    let named = |name: Seq<char>| exists|j: int| 0 <= j < m.len() && (#[trigger] m[j]).0 == name;
    lemma_alias_names();
    assert forall|name: Seq<char>|
        !named(name) && !name.contains('.') && name != "kind"@ implies #[trigger] table::lookup(
        a,
        name,
    ) is None by {
        assert forall|j: int| 0 <= j < m.len() implies (#[trigger] m[j]).0.len() > 0 && m[j].0
            != name by {}
        lemma_absent_member(m, start, name);
        table::law_put_then_lookup(Seq::<(Seq<char>, Seq<char>)>::empty(), "kind"@, kind, name);
        assert(table::lookup(Seq::<(Seq<char>, Seq<char>)>::empty(), name) is None);
    }
    assert(named("repo_name"@) || table::lookup(a, "repo_name"@) is None);
    assert(named("session_name"@) || table::lookup(a, "session_name"@) is None);
    assert(named("session"@) || table::lookup(a, "session"@) is None);
    lemma_alias_keeps(a, "repo_name"@, "repo"@, "repo_name"@);
    lemma_alias_keeps(a, "repo_name"@, "repo"@, "repo"@);
    lemma_alias_keeps(a, "repo_name"@, "repo"@, "session"@);
    lemma_alias_keeps(a, "repo_name"@, "repo"@, "session_name"@);
    lemma_alias_keeps(b, "session_name"@, "session"@, "repo_name"@);
    lemma_alias_keeps(b, "session_name"@, "session"@, "repo"@);
    lemma_alias_keeps(b, "session_name"@, "session"@, "session"@);
    lemma_alias_keeps(b, "session_name"@, "session"@, "session_name"@);
    lemma_alias_keeps(c, "session"@, "session_name"@, "repo_name"@);
    lemma_alias_keeps(c, "session"@, "session_name"@, "repo"@);
    lemma_alias_keeps(c, "session"@, "session_name"@, "session"@);
    lemma_alias_keeps(c, "session"@, "session_name"@, "session_name"@);
}

proof fn lemma_alias_names()
    ensures
        "repo_name"@ != "repo"@,
        "repo_name"@ != "session"@,
        "repo_name"@ != "session_name"@,
        "repo"@ != "session"@,
        "repo"@ != "session_name"@,
        "session"@ != "session_name"@,
        "kind"@ != "repo_name"@,
        "kind"@ != "session"@,
        "kind"@ != "session_name"@,
        !"repo_name"@.contains('.'),
        !"session_name"@.contains('.'),
        !"session"@.contains('.'),
{
    reveal_strlit("repo_name");
    reveal_strlit("repo");
    reveal_strlit("session");
    reveal_strlit("session_name");
    reveal_strlit("kind");
    assert("repo_name"@.len() == 9);
    assert("repo"@.len() == 4);
    assert("repo"@[0] == 'r');
    assert("session"@.len() == 7);
    assert("session_name"@.len() == 12);
    assert("kind"@.len() == 4);
    assert("kind"@[0] == 'k');
}

// ---------------------------------------------------------------------------
// Templates
// ---------------------------------------------------------------------------

proof fn lemma_nothing_to_replace(s: Seq<char>, from: Seq<char>, to: Seq<char>)
    requires
        from.len() > 0,
        forall|i: int| 0 <= i < s.len() ==> !#[trigger] text::occurs_at(s, from, i),
    ensures
        scan::replaced(s, from, to) == s,
    decreases s.len(),
{
    if s.len() >= from.len() {
        assert(!text::occurs_at(s, from, 0));
        let rest = s.skip(1);
        assert forall|i: int| 0 <= i < rest.len() implies !#[trigger] text::occurs_at(
            rest,
            from,
            i,
        ) by {
            if text::occurs_at(rest, from, i) {
                assert(s.subrange(i + 1, i + 1 + from.len()) =~= rest.subrange(i, i + from.len()));
                assert(text::occurs_at(s, from, i + 1));
            }
        }
        lemma_nothing_to_replace(rest, from, to);
        assert(seq![s[0]] + rest =~= s);
    }
}

proof fn lemma_no_brace(s: Seq<char>, from: Seq<char>)
    requires
        from.len() > 0,
        from[0] == '{',
        !s.contains('{'),
    ensures
        forall|i: int| 0 <= i < s.len() ==> !#[trigger] text::occurs_at(s, from, i),
{
    assert forall|i: int| 0 <= i < s.len() implies !#[trigger] text::occurs_at(s, from, i) by {
        if text::occurs_at(s, from, i) {
            assert(s.subrange(i, i + from.len())[0] == s[i]);
        }
    }
}

proof fn lemma_one_replaced(before: Seq<char>, from: Seq<char>, after: Seq<char>, to: Seq<char>)
    requires
        from.len() > 0,
        from[0] == '{',
        !before.contains('{'),
        !after.contains('{'),
    ensures
        scan::replaced(before + from + after, from, to) == before + to + after,
    decreases before.len(),
{
    let s = before + from + after;
    if before.len() == 0 {
        assert(s.subrange(0, from.len() as int) =~= from);
        assert(s.skip(from.len() as int) =~= after);
        lemma_no_brace(after, from);
        lemma_nothing_to_replace(after, from, to);
        assert(before + to + after =~= to + after);
    } else {
        assert(before[0] != '{');
        if text::begins_with(s, from) {
            assert(s.subrange(0, from.len() as int)[0] == s[0]);
        }
        let rest = before.skip(1);
        assert(!rest.contains('{')) by {
            if rest.contains('{') {
                let i = choose|i: int| 0 <= i < rest.len() && rest[i] == '{';
                assert(before[i + 1] == '{');
            }
        }
        lemma_one_replaced(rest, from, after, to);
        assert(s.skip(1) =~= rest + from + after);
        assert(seq![s[0]] + (rest + to + after) =~= before + to + after);
    }
}

proof fn lemma_other_token(
    before: Seq<char>,
    name: Seq<char>,
    after: Seq<char>,
    other: Seq<char>,
    to: Seq<char>,
)
    requires
        !before.contains('{'),
        !after.contains('{'),
        !name.contains('{'),
        !name.contains('}'),
        !other.contains('}'),
        name != other,
    ensures
        scan::replaced(before + ("{"@ + name + "}"@) + after, "{"@ + other + "}"@, to) == before + (
        "{"@ + name + "}"@) + after,
{
    reveal_strlit("{");
    reveal_strlit("}");
    let from = "{"@ + other + "}"@;
    let token = "{"@ + name + "}"@;
    let s = before + token + after;
    let n = before.len() as int;
    assert(from[0] == '{');
    assert(from[from.len() - 1] == '}');
    assert forall|i: int| 0 <= i < s.len() implies !#[trigger] text::occurs_at(s, from, i) by {
        if text::occurs_at(s, from, i) {
            let here = s.subrange(i, i + from.len());
            assert(here[0] == s[i]);
            if i < n {
                assert(s[i] == before[i]);
            } else if i > n {
                if i < n + token.len() {
                    assert(s[i] == token[i - n]);
                    if i < n + token.len() - 1 {
                        assert(token[i - n] == name[i - n - 1]);
                    }
                } else {
                    assert(s[i] == after[i - n - token.len()]);
                }
            } else {
                if other.len() < name.len() {
                    assert(here[other.len() as int + 1] == s[n + other.len() + 1]);
                    assert(from[other.len() as int + 1] == '}');
                    assert(s[n + other.len() + 1] == name[other.len() as int]);
                } else if other.len() > name.len() {
                    assert(here[name.len() as int + 1] == s[n + name.len() + 1]);
                    assert(s[n + name.len() + 1] == '}');
                    assert(from[name.len() as int + 1] == other[name.len() as int]);
                } else {
                    assert forall|k: int| 0 <= k < name.len() implies name[k] == other[k] by {
                        assert(here[k + 1] == s[n + k + 1]);
                        assert(from[k + 1] == other[k]);
                        assert(s[n + k + 1] == name[k]);
                    }
                    assert(name =~= other);
                }
            }
        }
    }
    lemma_nothing_to_replace(s, from, to);
}

/// A token in braces gives way to what it stands for, and what stands around it stays.
pub proof fn law_token_is_filled_in(
    before: Seq<char>,
    name: Seq<char>,
    after: Seq<char>,
    tokens: Seq<(Seq<char>, Seq<char>)>,
    i: int,
)
    requires
        0 <= i < tokens.len(),
        tokens[i].0 == name,
        forall|j: int| 0 <= j < tokens.len() && j != i ==> (#[trigger] tokens[j]).0 != name,
        forall|j: int| 0 <= j < tokens.len() ==> !(#[trigger] tokens[j]).0.contains('}'),
        !before.contains('{'),
        !after.contains('{'),
        !name.contains('{'),
        !tokens[i].1.contains('{'),
    ensures
        template::filled(before + ("{"@ + name + "}"@) + after, tokens) == before + tokens[i].1
            + after,
    decreases tokens.len(),
{
    let s = before + ("{"@ + name + "}"@) + after;
    let value = tokens[i].1;
    let front = tokens.drop_last();
    if i == tokens.len() - 1 {
        assert forall|j: int| 0 <= j < front.len() implies (#[trigger] front[j]).0 != name
            && !front[j].0.contains('}') by {
            assert(tokens[j].0 != name && !tokens[j].0.contains('}'));
        }
        lemma_unnamed(before, name, after, front);
        reveal_strlit("{");
        assert(("{"@ + name + "}"@)[0] == '{');
        lemma_one_replaced(before, "{"@ + name + "}"@, after, value);
    } else {
        assert(front[i] == tokens[i]);
        assert forall|j: int| 0 <= j < front.len() && j != i implies (#[trigger] front[j]).0
            != name by {
            assert(tokens[j].0 != name);
        }
        assert forall|j: int| 0 <= j < front.len() implies !(#[trigger] front[j]).0.contains(
            '}',
        ) by {
            assert(!tokens[j].0.contains('}'));
        }
        law_token_is_filled_in(before, name, after, front, i);
        let done = before + value + after;
        assert(!done.contains('{')) by {
            if done.contains('{') {
                let k = choose|k: int| 0 <= k < done.len() && done[k] == '{';
                if k < before.len() {
                    assert(before[k] == '{');
                } else if k < before.len() + value.len() {
                    assert(value[k - before.len()] == '{');
                } else {
                    assert(after[k - before.len() - value.len()] == '{');
                }
            }
        }
        reveal_strlit("{");
        let from = "{"@ + tokens.last().0 + "}"@;
        assert(from[0] == '{');
        lemma_no_brace(done, from);
        lemma_nothing_to_replace(done, from, tokens.last().1);
    }
}

proof fn lemma_unnamed(
    before: Seq<char>,
    name: Seq<char>,
    after: Seq<char>,
    tokens: Seq<(Seq<char>, Seq<char>)>,
)
    requires
        forall|j: int|
            0 <= j < tokens.len() ==> (#[trigger] tokens[j]).0 != name && !tokens[j].0.contains(
                '}',
            ),
        !before.contains('{'),
        !after.contains('{'),
        !name.contains('{'),
        !name.contains('}'),
    ensures
        template::filled(before + ("{"@ + name + "}"@) + after, tokens) == before + ("{"@ + name
            + "}"@) + after,
    decreases tokens.len(),
{
    if tokens.len() > 0 {
        let front = tokens.drop_last();
        assert forall|j: int| 0 <= j < front.len() implies (#[trigger] front[j]).0 != name
            && !front[j].0.contains('}') by {
            assert(tokens[j].0 != name && !tokens[j].0.contains('}'));
        }
        lemma_unnamed(before, name, after, front);
        assert(tokens[tokens.len() - 1].0 != name && !tokens[tokens.len() - 1].0.contains('}'));
        lemma_other_token(before, name, after, tokens.last().0, tokens.last().1);
    }
}

/// A name in braces that is no token stays as it stands.
pub proof fn law_unknown_token_stays(
    before: Seq<char>,
    name: Seq<char>,
    after: Seq<char>,
    tokens: Seq<(Seq<char>, Seq<char>)>,
)
    requires
        forall|j: int|
            0 <= j < tokens.len() ==> (#[trigger] tokens[j]).0 != name && !tokens[j].0.contains(
                '}',
            ),
        !before.contains('{'),
        !after.contains('{'),
        !name.contains('{'),
        !name.contains('}'),
    ensures
        template::filled(before + ("{"@ + name + "}"@) + after, tokens) == before + ("{"@ + name
            + "}"@) + after,
{
    lemma_unnamed(before, name, after, tokens);
}

} // verus!
