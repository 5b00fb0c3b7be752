//! What the JSON model says of the values that it stands for.

use vstd::prelude::*;

use crate::json::{
    empty_object, fields_tree, items_tree, lemma_fields_absent, lemma_fields_update,
    lemma_items_tree, or_text, or_zero, unsigned_tree, Json, JsonTree, NumberTree,
};
use crate::text::decimal;

verus! {

/// The members of an object are the entries of its map; nothing else has members.
pub proof fn law_members(v: JsonTree, key: Seq<char>)
    ensures
        v matches JsonTree::Object(m) ==> (m.dom().contains(key) ==> v.field(key) == Some(m[key]))
            && (!m.dom().contains(key) ==> v.field(key) is None),
        !(v is Object) ==> v.field(key) is None,
{
}

/// A string has its characters, an array its elements, a number its value; nothing else has them.
pub proof fn law_leaves(v: JsonTree)
    ensures
        v matches JsonTree::Text(s) ==> v.text() == Some(s),
        !(v is Text) ==> v.text() is None,
        v matches JsonTree::Array(a) ==> v.items() == Some(a),
        !(v is Array) ==> v.items() is None,
        v matches JsonTree::Number(n) ==> v.unsigned() == n.unsigned,
        !(v is Number) ==> v.unsigned() is None,
{
}

/// Reading a member as a string, a number, an array or an object is reading it and then what it is.
pub proof fn law_typed_members(v: JsonTree, key: Seq<char>, inner: Seq<char>)
    ensures
        v.field(key) is None ==> v.field_text(key) is None && v.field_unsigned(key) is None
            && v.field_items(key) is None && v.field_in(key, inner) is None,
        v.field(key) matches Some(x) ==> v.field_text(key) == x.text() && v.field_unsigned(key)
            == x.unsigned() && v.field_items(key) == x.items() && v.field_in(key, inner)
            == x.field(inner),
{
}

/// Setting a member gives an object in which the member is what it was set to, and every other one
/// what it was.
pub proof fn law_setting_a_member(v: JsonTree, key: Seq<char>, value: JsonTree, other: Seq<char>)
    ensures
        v.with(key, value) is Object,
        v.with(key, value).field(key) == Some(value),
        other != key ==> v.with(key, value).field(other) == v.field(other),
        v.takes_fields() <==> v == JsonTree::Null || v is Object,
{
}

/// The smallest values.
pub proof fn law_small_values(n: u64, count: Option<u64>, text: Option<Seq<char>>, s: Seq<char>)
    ensures
        forall|key: Seq<char>| #[trigger] empty_object().field(key) is None,
        empty_object() is Object,
        unsigned_tree(n) == JsonTree::Number(
            NumberTree { unsigned: Some(n), text: decimal(n as nat) },
        ),
        count matches Some(c) ==> or_zero(count) == c,
        count is None ==> or_zero(count) == 0,
        text matches Some(t) ==> or_text(text, s) == t,
        text is None ==> or_text(text, s) == s,
{
}

/// What a value stands for: itself, element by element.
pub proof fn law_value_stands_for_itself(v: Json)
    ensures
        match v {
            Json::Null => v.tree() == JsonTree::Null,
            Json::Bool(b) => v.tree() == JsonTree::Bool(b),
            Json::Number(n) => v.tree() == JsonTree::Number(
                NumberTree { unsigned: n.unsigned, text: n.text@ },
            ),
            Json::Text(s) => v.tree() == JsonTree::Text(s@),
            Json::Array(a) => v.tree() matches JsonTree::Array(items) && items.len() == a@.len()
                && forall|i: int| 0 <= i < a@.len() ==> #[trigger] items[i] == a@[i].tree(),
            Json::Object(_) => v.tree() is Object,
        },
{
    if let Json::Array(a) = v {
        lemma_items_tree(a@);
        assert(v.tree() == JsonTree::Array(items_tree(a@)));
    }
}

/// The member of an object under a key is the last one that was written under it.
pub proof fn law_last_member_counts(fields: Vec<(String, Json)>, at: int, key: Seq<char>)
    ensures
        0 <= at < fields@.len() && fields@[at].0@ == key && (forall|j: int|
            at < j < fields@.len() ==> (#[trigger] fields@[j]).0@ != key) ==> Json::Object(
            fields,
        ).tree().field(key) == Some(fields@[at].1.tree()),
        (forall|j: int| 0 <= j < fields@.len() ==> (#[trigger] fields@[j]).0@ != key)
            ==> Json::Object(fields).tree().field(key) is None,
{
    assert(Json::Object(fields).tree() == JsonTree::Object(fields_tree(fields@)));
    if 0 <= at < fields@.len() && fields@[at].0@ == key && (forall|j: int|
        at < j < fields@.len() ==> (#[trigger] fields@[j]).0@ != key) {
        lemma_fields_update(fields@, at);
    }
    if forall|j: int| 0 <= j < fields@.len() ==> (#[trigger] fields@[j]).0@ != key {
        lemma_fields_absent(fields@, key);
    }
}

} // verus!
