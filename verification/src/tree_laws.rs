//! Where paths lead in a value, and how a value is ordered before it is written.
use vstd::prelude::*;
use vstd::string::*;

use crate::json;
use crate::json::Node;
use crate::scan;
use crate::scan_laws;
use crate::table;

verus! {

proof fn lemma_follow(node: Node, keys: Seq<Seq<char>>, key: Seq<char>)
    ensures
        json::follow(node, keys.push(key)) == (match json::follow(node, keys) {
            Some(below) => json::member(below, key),
            None => None,
        }),
    decreases keys.len(),
{
    reveal_with_fuel(json::follow, 2);
    let more = keys.push(key);
    if keys.len() == 0 {
        assert(more.drop_first() =~= Seq::empty());
    } else {
        assert(more[0] == keys[0]);
        assert(more.drop_first() =~= keys.drop_first().push(key));
        match json::member(node, keys[0]) {
            Some(below) => lemma_follow(below, keys.drop_first(), key),
            None => {},
        }
    }
}

/// The empty path leads to the value itself, and a path with one more key to what stands under
/// that key where the rest of it leads.
pub proof fn law_path_leads_down(node: Node, path: Seq<char>, key: Seq<char>)
    requires
        !key.contains('/'),
    ensures
        json::at_path(node, Seq::empty()) == Some(node),
        json::at_path(node, path + "/"@ + key) == (match json::at_path(node, path) {
            Some(below) => json::member(below, key),
            None => None,
        }),
{
    reveal_strlit("/");
    assert("/"@ =~= seq!['/']);
    scan_laws::law_text_without_separator_is_one_part(Seq::empty(), '/');
    scan_laws::law_text_without_separator_is_one_part(key, '/');
    scan_laws::law_separator_parts(path, '/', key);
    scan_laws::law_parts_rejoin(path, '/');
    let front = scan::split(path, '/');
    let all = scan::split(path + "/"@ + key, '/');
    assert(all == front + seq![key]);
    assert(all.skip(1) =~= front.skip(1).push(key));
    lemma_follow(node, front.skip(1), key);
    assert(scan::split(Seq::<char>::empty(), '/').skip(1) =~= Seq::empty());
}

proof fn lemma_items(s: Seq<Node>)
    ensures
        json::canonical_items(s) == s.map_values(|n: Node| json::canonical(n)),
    decreases s,
{
    let f = |n: Node| json::canonical(n);
    if s.len() > 0 {
        lemma_items(s.drop_last());
        assert(s.map_values(f) =~= s.drop_last().map_values(f).push(f(s.last())));
    } else {
        assert(json::canonical_items(s) =~= s.map_values(f));
    }
}

proof fn lemma_members(m: Seq<(Seq<char>, Node)>, key: Seq<char>)
    ensures
        table::lookup(json::canonical_members(m), key) == (match table::lookup(m, key) {
            Some(value) => Some(json::canonical(value)),
            None => None,
        }),
    decreases m,
{
    if m.len() > 0 {
        lemma_members(m.drop_last(), key);
        let all = json::canonical_members(m);
        assert(all.drop_last() =~= json::canonical_members(m.drop_last()));
        assert(all.last() == (m.last().0, json::canonical(m.last().1)));
    }
}

/// Before a value is written the members of its objects are put in the order of their keys, at
/// every depth; nothing else about it changes.
pub proof fn law_value_is_put_in_order(node: Node, key: Seq<char>)
    ensures
        match (node, json::canonical(node)) {
            (Node::Object(_), Node::Object(sorted)) => {
                &&& table::in_order(sorted)
                &&& table::lookup(sorted, key) == (match json::member(node, key) {
                    Some(value) => Some(json::canonical(value)),
                    None => None,
                })
            },
            (Node::List(items), after) => after == Node::List(
                items.map_values(|n: Node| json::canonical(n)),
            ),
            (_, after) => after == node,
        },
{
    match node {
        Node::Object(m) => {
            let all = json::canonical_members(m);
            lemma_members(m, key);
            table::law_collected_is_in_order(all);
            table::law_collected_keeps_contents(all);
        },
        Node::List(items) => lemma_items(items),
        _ => {},
    }
}

} // verus!
