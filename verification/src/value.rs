//! Reading and changing JSON values.
use vstd::prelude::*;
use vstd::string::*;

use crate::json;
use crate::json::{Json, Node};
use crate::numeral::{number_as_u64, number_from_u64, number_notation};
use crate::compose::cat3;
use crate::scan;
use crate::scan::split_at_each;
use crate::table::{find_entry, set_entry};
use crate::text;
use crate::text::{same, trim};

verus! {

broadcast use crate::json::group_trees;

impl Json {
    /// An object without members.
    pub fn object() -> (r: Json)
        ensures
            r@ == json::empty(),
    {
        let r = Json::Object(Vec::new());
        assert(json::members(Seq::<(String, Json)>::empty()) =~= Seq::<(Seq<char>, Node)>::empty());
        r
    }

    /// A JSON text.
    pub fn text(s: &str) -> (r: Json)
        ensures
            r@ == Node::Text(s@),
    {
        Json::Text(s.to_owned())
    }

    /// A JSON number.
    pub fn unsigned(n: u64) -> (r: Json)
        ensures
            r@ == json::whole(n),
    {
        Json::Number(number_from_u64(n))
    }

    /// The value of a key, where this is an object that has the key.
    pub fn get(&self, key: &str) -> (r: Option<&Json>)
        ensures
            json::opt_node(r) == json::member(self@, key@),
    {
        match self {
            Json::Object(entries) => find_entry(entries, key),
            _ => None,
        }
    }

    /// Sets a key, where this is an object.
    pub fn insert(&mut self, key: &str, value: Json)
        ensures
            final(self)@ == json::with_member(old(self)@, key@, value@),
    {
        match self {
            Json::Object(entries) => set_entry(entries, key, value),
            _ => {},
        }
    }

    /// This object with a key set; any other value as it is.
    pub fn with(self, key: &str, value: Json) -> (r: Json)
        ensures
            r@ == json::with_member(self@, key@, value@),
    {
        let mut this = self;
        this.insert(key, value);
        this
    }

    /// This object with a key set, where there is a value for it.
    pub fn with_opt(self, key: &str, value: Option<&Json>) -> (r: Json)
        ensures
            r@ == self@.with_opt(key@, json::opt_node(value)),
    {
        match value {
            Some(v) => self.with(key, v.clone()),
            None => self,
        }
    }

    /// This object with a key set to a text.
    pub fn with_text(self, key: &str, value: &str) -> (r: Json)
        ensures
            r@ == self@.with_text(key@, value@),
    {
        self.with(key, Json::text(value))
    }

    /// This object with a key set to a number.
    pub fn with_count(self, key: &str, value: u64) -> (r: Json)
        ensures
            r@ == self@.with_count(key@, value),
    {
        self.with(key, Json::unsigned(value))
    }

    /// This object with a key set to a truth value.
    pub fn with_flag(self, key: &str, value: bool) -> (r: Json)
        ensures
            r@ == self@.with(key@, Node::Bool(value)),
    {
        self.with(key, Json::Bool(value))
    }

    /// This object with a key set to a text, where there is one.
    pub fn with_opt_text(self, key: &str, value: &Option<String>) -> (r: Json)
        ensures
            r@ == self@.with_opt_text(key@, text::opt_text(*value)),
    {
        match value {
            Some(s) => self.with_text(key, s.as_str()),
            None => self,
        }
    }

    /// This object with a key set to a number, where there is one.
    pub fn with_opt_count(self, key: &str, value: Option<u64>) -> (r: Json)
        ensures
            r@ == self@.with_opt_count(key@, value),
    {
        match value {
            Some(n) => self.with_count(key, n),
            None => self,
        }
    }

    /// This object with a key set to a text, or to null where there is none.
    pub fn with_text_or_null(self, key: &str, value: &Option<String>) -> (r: Json)
        ensures
            r@ == self@.with_text_or_null(key@, text::opt_text(*value)),
    {
        match value {
            Some(s) => self.with_text(key, s.as_str()),
            None => self.with(key, Json::Null),
        }
    }

    /// This object with a key set to a number, or to null where there is none.
    pub fn with_count_or_null(self, key: &str, value: Option<u64>) -> (r: Json)
        ensures
            r@ == self@.with_count_or_null(key@, value),
    {
        match value {
            Some(n) => self.with_count(key, n),
            None => self.with(key, Json::Null),
        }
    }

    /// Tells whether this is an object.
    pub fn is_object(&self) -> (r: bool)
        ensures
            r == (self@ is Object),
    {
        match self {
            Json::Object(_) => true,
            _ => false,
        }
    }

    /// The characters of a text.
    pub fn as_str(&self) -> (r: Option<&str>)
        ensures
            text::opt_str(r) == json::as_text(Some(self@)),
    {
        match self {
            Json::Text(s) => Some(s.as_str()),
            _ => None,
        }
    }

    /// The number, if it is one from 0 to `u64::MAX`.
    pub fn as_u64(&self) -> (r: Option<u64>)
        ensures
            r == json::as_count(Some(self@)),
    {
        match self {
            Json::Number(n) => number_as_u64(n),
            _ => None,
        }
    }

    /// The truth value.
    pub fn as_bool(&self) -> (r: Option<bool>)
        ensures
            r == json::as_flag(Some(self@)),
    {
        match self {
            Json::Bool(b) => Some(*b),
            _ => None,
        }
    }

    /// The items of a list.
    pub fn as_array(&self) -> (r: Option<&Vec<Json>>)
        ensures
            opt_items(r) == json::as_items(Some(self@)),
    {
        match self {
            Json::List(items) => Some(items),
            _ => None,
        }
    }

    /// What stands below this value at a path such as `/context/mention`.
    pub fn pointer(&self, path: &str) -> (r: Option<&Json>)
        ensures
            json::opt_node(r) == json::at_path(self@, path@),
    {
        let keys = split_at_each(path, '/');
        let ghost all = scan::split(path@, '/');
        let ghost path_keys = all.skip(1);
        let mut here: &Json = self;
        let mut i: usize = 1;
        assert(text::views(keys@).len() == keys@.len());
        assert(path_keys.skip(0) =~= path_keys);
        while i < keys.len()
            invariant
                1 <= i <= keys.len(),
                all == scan::split(path@, '/'),
                text::views(keys@) == all,
                keys@.len() == all.len(),
                path_keys == all.skip(1),
                json::follow(self@, path_keys) == json::follow(here@, path_keys.skip(i - 1)),
            decreases keys.len() - i,
        {
            let ghost rest = path_keys.skip(i - 1);
            assert(rest[0] == text::views(keys@)[i as int]);
            assert(rest.drop_first() =~= path_keys.skip(i as int));
            match here.get(keys[i].as_str()) {
                Some(below) => {
                    here = below;
                },
                None => {
                    assert(json::follow(here@, rest) is None);
                    assert(json::at_path(self@, path@) is None);
                    return None;
                },
            }
            i = i + 1;
        }
        assert(path_keys.skip(i - 1).len() == 0);
        Some(here)
    }

    /// The text of a key, as it stands.
    pub fn raw_field(&self, key: &str) -> (r: Option<&str>)
        ensures
            text::opt_str(r) == json::raw_field(self@, key@),
    {
        match self.get(key) {
            Some(value) => value.as_str(),
            None => None,
        }
    }

    /// The text of a key, trimmed, unless it is blank.
    pub fn field(&self, key: &str) -> (r: Option<String>)
        ensures
            text::opt_text(r) == json::field(self@, key@),
    {
        meaningful(self.raw_field(key))
    }

    /// The text at a path, trimmed, unless it is blank.
    pub fn field_at(&self, path: &str) -> (r: Option<String>)
        ensures
            text::opt_text(r) == json::field_at(self@, path@),
    {
        match self.pointer(path) {
            Some(value) => meaningful(value.as_str()),
            None => None,
        }
    }

    /// The text of a key, trimmed, or an error that names the key.
    pub fn required(&self, key: &str) -> (r: Result<String, String>)
        ensures
            text::text_result(r) == json::required(self@, key@),
    {
        match self.field(key) {
            Some(s) => Ok(s),
            None => Err(cat3("missing string field '", key, "'")),
        }
    }

    /// The number of a key.
    pub fn count(&self, key: &str) -> (r: Option<u64>)
        ensures
            r == json::count(self@, key@),
    {
        match self.get(key) {
            Some(value) => value.as_u64(),
            None => None,
        }
    }

    /// The truth value of a key.
    pub fn flag(&self, key: &str) -> (r: Option<bool>)
        ensures
            r == json::flag(self@, key@),
    {
        match self.get(key) {
            Some(value) => value.as_bool(),
            None => None,
        }
    }

    /// The list of a key.
    pub fn items(&self, key: &str) -> (r: Option<&Vec<Json>>)
        ensures
            opt_items(r) == json::items(self@, key@),
    {
        match self.get(key) {
            Some(value) => value.as_array(),
            None => None,
        }
    }

    /// Tells whether two values are the same tree. Numbers go by their notation, so
    /// that `0.0` and `-0.0` are two.
    pub fn same_as(&self, other: &Json) -> (r: bool)
        ensures
            r == (self@ == other@),
        decreases self,
    {
        match (self, other) {
            (Json::Null, Json::Null) => true,
            (Json::Bool(a), Json::Bool(b)) => *a == *b,
            (Json::Number(a), Json::Number(b)) => {
                number_as_u64(a) == number_as_u64(b) && same(
                    number_notation(a).as_str(),
                    number_notation(b).as_str(),
                )
            },
            (Json::Text(a), Json::Text(b)) => same(a.as_str(), b.as_str()),
            (Json::List(a), Json::List(b)) => {
                let ghost x = json::nodes(a@);
                let ghost y = json::nodes(b@);
                if a.len() != b.len() {
                    assert(x.len() != y.len());
                    return false;
                }
                let mut i: usize = 0;
                while i < a.len()
                    invariant
                        i <= a.len() == b.len(),
                        x == json::nodes(a@),
                        y == json::nodes(b@),
                        self@ == Node::List(x),
                        other@ == Node::List(y),
                        self matches Json::List(v) && v == a,
                        forall|k: int| 0 <= k < i ==> x[k] == y[k],
                    decreases a.len() - i,
                {
                    let ghost item = a@[i as int];
                    assert(decreases_to!(self => a@[i as int]));
                    if !a[i].same_as(&b[i]) {
                        assert(x[i as int] != y[i as int]);
                        return false;
                    }
                    i = i + 1;
                }
                assert(x =~= y);
                true
            },
            (Json::Object(a), Json::Object(b)) => {
                let ghost x = json::members(a@);
                let ghost y = json::members(b@);
                if a.len() != b.len() {
                    assert(x.len() != y.len());
                    return false;
                }
                let mut i: usize = 0;
                while i < a.len()
                    invariant
                        i <= a.len() == b.len(),
                        x == json::members(a@),
                        y == json::members(b@),
                        self@ == Node::Object(x),
                        other@ == Node::Object(y),
                        self matches Json::Object(v) && v == a,
                        forall|k: int| 0 <= k < i ==> x[k] == y[k],
                    decreases a.len() - i,
                {
                    assert(decreases_to!(self => a@[i as int].1));
                    if !same(a[i].0.as_str(), b[i].0.as_str()) || !a[i].1.same_as(&b[i].1) {
                        assert(x[i as int] != y[i as int]);
                        return false;
                    }
                    i = i + 1;
                }
                assert(x =~= y);
                true
            },
            _ => false,
        }
    }

    /// Tells whether this is null.
    pub fn is_null(&self) -> (r: bool)
        ensures
            r == (self@ is Null),
    {
        match self {
            Json::Null => true,
            _ => false,
        }
    }
}

impl Clone for Json {
    fn clone(&self) -> (r: Json)
        ensures
            r@ == self@,
        decreases self,
    {
        match self {
            Json::Null => Json::Null,
            Json::Bool(b) => Json::Bool(*b),
            Json::Number(n) => Json::Number(n.clone()),
            Json::Text(s) => Json::Text(s.clone()),
            Json::List(items) => {
                let mut out: Vec<Json> = Vec::new();
                let mut i: usize = 0;
                while i < items.len()
                    invariant
                        i <= items.len(),
                        self matches Json::List(v) && v == items,
                        json::nodes(out@) == json::nodes(items@).take(i as int),
                    decreases items.len() - i,
                {
                    assert(decreases_to!(self => items@[i as int]));
                    let item = items[i].clone();
                    out.push(item);
                    i = i + 1;
                }
                assert(json::nodes(out@) =~= json::nodes(items@));
                Json::List(out)
            },
            Json::Object(entries) => {
                let mut out: Vec<(String, Json)> = Vec::new();
                let mut i: usize = 0;
                while i < entries.len()
                    invariant
                        i <= entries.len(),
                        self matches Json::Object(v) && v == entries,
                        json::members(out@) == json::members(entries@).take(i as int),
                    decreases entries.len() - i,
                {
                    assert(decreases_to!(self => entries@[i as int].1));
                    let key = entries[i].0.clone();
                    let value = entries[i].1.clone();
                    out.push((key, value));
                    i = i + 1;
                }
                assert(json::members(out@) =~= json::members(entries@));
                Json::Object(out)
            },
        }
    }
}

/// The trees of an optional list of values.
pub open spec fn opt_items(o: Option<&Vec<Json>>) -> Option<Seq<Node>> {
    match o {
        Some(v) => Some(json::nodes(v@)),
        None => None,
    }
}

/// The trimmed text of an optional text, unless it is blank.
pub fn meaningful(o: Option<&str>) -> (r: Option<String>)
    ensures
        text::opt_text(r) == text::meaningful_opt(text::opt_str(o)),
{
    match o {
        Some(s) => {
            let t = trim(s);
            if t.is_empty() {
                None
            } else {
                Some(t.to_owned())
            }
        },
        None => None,
    }
}

} // verus!
