//! Reading JSON text, which `serde_json` does, into [`Json`] values.

use serde_json::Value;
use vstd::prelude::*;

use crate::json::{fields_tree, items_tree, lemma_items_push, Json, JsonTree, Number};
use crate::text::ends_in_return;

verus! {

// ---------------------------------------------------------------------------
// Calls into serde_json
// ---------------------------------------------------------------------------

/// `serde_json::Value`, held as an opaque value; [`value_tree`] names what it holds.
#[verifier::external_type_specification]
#[verifier::external_body]
pub struct ExValue(serde_json::Value);

/// What a `serde_json::Value` holds, down to its leaves.
pub uninterp spec fn value_tree(value: Value) -> JsonTree;

/// What `serde_json::from_str` makes of a text: the value that it denotes, or the description of
/// what is wrong with it.
pub uninterp spec fn json_parse(text: Seq<char>) -> Result<JsonTree, Seq<char>>;

/// Calls `serde_json::from_str`, whose outcome is a function of the text. White space behind a
/// value is passed over: a text that denotes a value and ends in a carriage return denotes the same
/// value without it. An error is given by the description that its `Display` writes.
#[verifier::external_body]
fn parse_value(text: &str) -> (outcome: Result<Value, String>)
    ensures
        match outcome {
            Ok(value) => json_parse(text@) == Ok::<JsonTree, Seq<char>>(value_tree(value)) && (
            ends_in_return(text@) ==> json_parse(text@.drop_last()) == Ok::<JsonTree, Seq<char>>(
                value_tree(value),
            )),
            Err(e) => json_parse(text@) == Err::<JsonTree, Seq<char>>(e@),
        },
{
    serde_json::from_str(text).map_err(|e| e.to_string())
}

/// The uppermost layer of a `serde_json::Value`.
enum Layer<'a> {
    Null,
    Bool(bool),
    Number(Number),
    Text(String),
    Array(&'a Vec<Value>),
    Object(Vec<(String, &'a Value)>),
}

/// What the members of an object are.
spec fn members_tree(members: Seq<(String, &Value)>) -> Map<Seq<char>, JsonTree>
    decreases members.len(),
{
    if members.len() == 0 {
        Map::empty()
    } else {
        members_tree(members.drop_last()).insert(
            members.last().0@,
            value_tree(*members.last().1),
        )
    }
}

impl<'a> Layer<'a> {
    /// What the value of this uppermost layer holds.
    spec fn tree(self) -> JsonTree {
        match self {
            Layer::Null => JsonTree::Null,
            Layer::Bool(b) => JsonTree::Bool(b),
            Layer::Number(n) => JsonTree::Number(n.tree()),
            Layer::Text(s) => JsonTree::Text(s@),
            Layer::Array(a) => JsonTree::Array(a@.map_values(|v: Value| value_tree(v))),
            Layer::Object(o) => JsonTree::Object(members_tree(o@)),
        }
    }

    /// Whether no key occurs twice in this layer.
    spec fn has_distinct_keys(self) -> bool {
        match self {
            Layer::Object(o) => forall|i: int, j: int|
                0 <= i < j < o@.len() ==> (#[trigger] o@[i]).0@ != (#[trigger] o@[j]).0@,
            _ => true,
        }
    }
}

/// Takes a `serde_json::Value` apart by its variants. A number is read with `Number::as_u64` and
/// written with its `Display`; the members of a `Map` come with distinct keys.
#[verifier::external_body]
fn open_value<'a>(value: &'a Value) -> (layer: Layer<'a>)
    ensures
        layer.tree() == value_tree(*value),
        layer.has_distinct_keys(),
{
    match value {
        Value::Null => Layer::Null,
        Value::Bool(b) => Layer::Bool(*b),
        Value::Number(n) => Layer::Number(Number { unsigned: n.as_u64(), text: n.to_string() }),
        Value::String(s) => Layer::Text(s.clone()),
        Value::Array(a) => Layer::Array(a),
        Value::Object(o) => Layer::Object(o.iter().map(|(k, v)| (k.clone(), v)).collect()),
    }
}

// ---------------------------------------------------------------------------
// Conversion
// ---------------------------------------------------------------------------

/// With distinct keys each member is found under its key.
proof fn lemma_members_tree(members: Seq<(String, &Value)>)
    requires
        forall|i: int, j: int|
            0 <= i < j < members.len() ==> (#[trigger] members[i]).0@ != (
            #[trigger] members[j]).0@,
    ensures
        members_tree(members).dom().finite(),
        forall|i: int|
            0 <= i < members.len() ==> members_tree(members).dom().contains(
                (#[trigger] members[i]).0@,
            ) && members_tree(members)[members[i].0@] == value_tree(*members[i].1),
    decreases members.len(),
{
    if members.len() > 0 {
        let short = members.drop_last();
        assert forall|i: int, j: int| 0 <= i < j < short.len() implies (#[trigger] short[i]).0@
            != (#[trigger] short[j]).0@ by {
            assert(short[i] == members[i]);
            assert(short[j] == members[j]);
        }
        lemma_members_tree(short);
        assert forall|i: int| 0 <= i < members.len() implies members_tree(members).dom().contains(
            (#[trigger] members[i]).0@,
        ) && members_tree(members)[members[i].0@] == value_tree(*members[i].1) by {
            if i < members.len() - 1 {
                assert(short[i] == members[i]);
                assert(members[i].0@ != members[members.len() - 1].0@);
            }
        }
    }
}

impl Json {
    /// The value that a `serde_json::Value` holds.
    pub fn from_value(value: &Value) -> (json: Json)
        ensures
            json.tree() == value_tree(*value),
        decreases value_tree(*value),
    {
        let layer = open_value(value);
        let ghost tree = value_tree(*value);
        match layer {
            Layer::Null => Json::Null,
            Layer::Bool(b) => Json::Bool(b),
            Layer::Number(n) => Json::Number(n),
            Layer::Text(s) => Json::Text(s),
            Layer::Array(items) => {
                let mut out: Vec<Json> = Vec::new();
                let n: usize = items.len();
                for i in 0..n
                    invariant
                        n == items@.len(),
                        tree == value_tree(*value),
                        tree == JsonTree::Array(items@.map_values(|v: Value| value_tree(v))),
                        items_tree(out@) =~= items@.map_values(|v: Value| value_tree(v)).take(
                            i as int,
                        ),
                {
                    assert(decreases_to!(tree => tree->Array_0));
                    assert(decreases_to!(tree->Array_0 => tree->Array_0[i as int]));
                    let item = Json::from_value(&items[i]);
                    proof {
                        lemma_items_push(out@, item);
                    }
                    out.push(item);
                }
                assert(items_tree(out@) =~= items@.map_values(|v: Value| value_tree(v)));
                Json::Array(out)
            },
            Layer::Object(members) => {
                let mut out: Vec<(String, Json)> = Vec::new();
                let n: usize = members.len();
                proof {
                    lemma_members_tree(members@);
                }
                for i in 0..n
                    invariant
                        n == members@.len(),
                        tree == value_tree(*value),
                        tree == JsonTree::Object(members_tree(members@)),
                        tree->Object_0.dom().finite(),
                        forall|j: int|
                            0 <= j < n ==> tree->Object_0.dom().contains(
                                (#[trigger] members@[j]).0@,
                            ) && tree->Object_0[members@[j].0@] == value_tree(*members@[j].1),
                        fields_tree(out@) == members_tree(members@.take(i as int)),
                {
                    assert(decreases_to!(tree => tree->Object_0));
                    assert(decreases_to!(tree->Object_0 => tree->Object_0[members@[i as int].0@]));
                    let item = Json::from_value(members[i].1);
                    let ghost before = out@;
                    out.push((members[i].0.clone(), item));
                    assert(out@.drop_last() =~= before);
                    assert(members@.take(i + 1).drop_last() =~= members@.take(i as int));
                }
                assert(members@.take(n as int) =~= members@);
                Json::Object(out)
            },
        }
    }

    /// Reads a JSON text. A carriage return at its end makes no difference to what it denotes.
    pub fn parse(text: &str) -> (outcome: Result<Json, String>)
        ensures
            match outcome {
                Ok(json) => json_parse(text@) == Ok::<JsonTree, Seq<char>>(json.tree()) && (
                ends_in_return(text@) ==> json_parse(text@.drop_last()) == Ok::<
                    JsonTree,
                    Seq<char>,
                >(json.tree())),
                Err(e) => json_parse(text@) == Err::<JsonTree, Seq<char>>(e@),
            },
    {
        match parse_value(text) {
            Ok(value) => Ok(Json::from_value(&value)),
            Err(e) => Err(e),
        }
    }
}

} // verus!
