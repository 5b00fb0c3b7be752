//! JSON values.
//!
//! [`Json`] is what the library computes with; [`JsonTree`] is its mathematical model, in which
//! an object is a map, so that the order of its members plays no part.

use vstd::prelude::*;

use crate::text::{decimal, same_text, texts, to_decimal};

verus! {

// ---------------------------------------------------------------------------
// The model
// ---------------------------------------------------------------------------

/// What a JSON number is: its value where it is an unsigned 64-bit integer, and how it is
/// written.
#[verifier::ext_equal]
pub struct NumberTree {
    pub unsigned: Option<u64>,
    pub text: Seq<char>,
}

/// What a JSON value is.
#[verifier::ext_equal]
pub enum JsonTree {
    Null,
    Bool(bool),
    Number(NumberTree),
    Text(Seq<char>),
    Array(Seq<JsonTree>),
    Object(Map<Seq<char>, JsonTree>),
}

impl JsonTree {
    /// The member under `key`, if this is an object that has it.
    pub open spec fn field(self, key: Seq<char>) -> Option<JsonTree> {
        match self {
            JsonTree::Object(m) => if m.dom().contains(key) {
                Some(m[key])
            } else {
                None
            },
            _ => None,
        }
    }

    /// The characters, if this is a string.
    pub open spec fn text(self) -> Option<Seq<char>> {
        match self {
            JsonTree::Text(s) => Some(s),
            _ => None,
        }
    }

    /// The value, if this is a number that is an unsigned 64-bit integer.
    pub open spec fn unsigned(self) -> Option<u64> {
        match self {
            JsonTree::Number(n) => n.unsigned,
            _ => None,
        }
    }

    /// The elements, if this is an array.
    pub open spec fn items(self) -> Option<Seq<JsonTree>> {
        match self {
            JsonTree::Array(a) => Some(a),
            _ => None,
        }
    }

    /// The characters of the member under `key`, if there is such a member and it is a string.
    pub open spec fn field_text(self, key: Seq<char>) -> Option<Seq<char>> {
        match self.field(key) {
            Some(v) => v.text(),
            None => None,
        }
    }

    /// The value of the member under `key`, if there is such a member and it is an unsigned
    /// 64-bit integer.
    pub open spec fn field_unsigned(self, key: Seq<char>) -> Option<u64> {
        match self.field(key) {
            Some(v) => v.unsigned(),
            None => None,
        }
    }

    /// The elements of the member under `key`, if there is such a member and it is an array.
    pub open spec fn field_items(self, key: Seq<char>) -> Option<Seq<JsonTree>> {
        match self.field(key) {
            Some(v) => v.items(),
            None => None,
        }
    }

    /// The member under `inner` of the member under `outer`.
    pub open spec fn field_in(self, outer: Seq<char>, inner: Seq<char>) -> Option<JsonTree> {
        match self.field(outer) {
            Some(v) => v.field(inner),
            None => None,
        }
    }

    /// This object with `key` set to `value`. Null counts as the empty object.
    pub open spec fn with(self, key: Seq<char>, value: JsonTree) -> JsonTree {
        match self {
            JsonTree::Object(m) => JsonTree::Object(m.insert(key, value)),
            _ => JsonTree::Object(Map::empty().insert(key, value)),
        }
    }

    /// Whether a member can be set: the value is an object, or null, which becomes one.
    pub open spec fn takes_fields(self) -> bool {
        self is Null || self is Object
    }
}

/// The object without members.
pub open spec fn empty_object() -> JsonTree {
    JsonTree::Object(Map::empty())
}

/// The JSON number of an unsigned integer.
pub open spec fn unsigned_tree(n: u64) -> JsonTree {
    JsonTree::Number(NumberTree { unsigned: Some(n), text: decimal(n as nat) })
}

/// An optional count, zero where there is none.
pub open spec fn or_zero(n: Option<u64>) -> u64 {
    match n {
        Some(n) => n,
        None => 0,
    }
}

/// An optional text, `default` where there is none.
pub open spec fn or_text(text: Option<Seq<char>>, default: Seq<char>) -> Seq<char> {
    match text {
        Some(s) => s,
        None => default,
    }
}

// ---------------------------------------------------------------------------
// The values
// ---------------------------------------------------------------------------

/// A JSON number.
#[derive(Debug)]
pub struct Number {
    /// The value, where it is an unsigned 64-bit integer.
    pub unsigned: Option<u64>,
    /// How the number is written.
    pub text: String,
}

impl Number {
    pub open spec fn tree(self) -> NumberTree {
        NumberTree { unsigned: self.unsigned, text: self.text@ }
    }

    /// The number of an unsigned integer.
    pub fn from_unsigned(n: u64) -> (number: Number)
        ensures
            JsonTree::Number(number.tree()) == unsigned_tree(n),
    {
        Number { unsigned: Some(n), text: to_decimal(n) }
    }
}

/// A JSON value. Where a key occurs twice among the members of an object, the later one counts.
#[derive(Debug)]
pub enum Json {
    Null,
    Bool(bool),
    Number(Number),
    Text(String),
    Array(Vec<Json>),
    Object(Vec<(String, Json)>),
}

/// What the elements of an array are.
pub open spec fn items_tree(items: Seq<Json>) -> Seq<JsonTree>
    decreases items,
{
    if items.len() == 0 {
        Seq::empty()
    } else {
        items_tree(items.drop_last()).push(items.last().tree())
    }
}

/// What the members of an object are.
pub open spec fn fields_tree(fields: Seq<(String, Json)>) -> Map<Seq<char>, JsonTree>
    decreases fields,
{
    if fields.len() == 0 {
        Map::empty()
    } else {
        fields_tree(fields.drop_last()).insert(fields.last().0@, fields.last().1.tree())
    }
}

/// The elements of an array correspond one by one.
pub proof fn lemma_items_tree(items: Seq<Json>)
    ensures
        items_tree(items).len() == items.len(),
        forall|i: int|
            0 <= i < items.len() ==> #[trigger] items_tree(items)[i] == items[i].tree(),
    decreases items.len(),
{
    if items.len() > 0 {
        lemma_items_tree(items.drop_last());
    }
}

/// One more element.
pub proof fn lemma_items_push(items: Seq<Json>, item: Json)
    ensures
        items_tree(items.push(item)) == items_tree(items).push(item.tree()),
{
    assert(items.push(item).drop_last() =~= items);
}

/// One element changed.
pub proof fn lemma_items_update(items: Seq<Json>, at: int)
    requires
        0 <= at < items.len(),
    ensures
        forall|item: Json|
            items_tree(#[trigger] items.update(at, item)) == items_tree(items).update(
                at,
                item.tree(),
            ),
{
    lemma_items_tree(items);
    assert forall|item: Json|
        items_tree(#[trigger] items.update(at, item)) == items_tree(items).update(
            at,
            item.tree(),
        ) by {
        lemma_items_tree(items.update(at, item));
        assert(items_tree(items.update(at, item)) =~= items_tree(items).update(at, item.tree()));
    }
}

/// One member changed, the last one of its key.
pub proof fn lemma_fields_update(fields: Seq<(String, Json)>, at: int)
    requires
        0 <= at < fields.len(),
        forall|j: int| at < j < fields.len() ==> (#[trigger] fields[j]).0@ != fields[at].0@,
    ensures
        forall|key: String, value: Json|
            key@ == fields[at].0@ ==> fields_tree(#[trigger] fields.update(at, (key, value)))
                == fields_tree(fields).insert(key@, value.tree()),
        fields_tree(fields).dom().contains(fields[at].0@),
        fields_tree(fields)[fields[at].0@] == fields[at].1.tree(),
    decreases fields.len(),
{
    let short = fields.drop_last();
    if at < fields.len() - 1 {
        assert forall|j: int| at < j < short.len() implies (#[trigger] short[j]).0@
            != short[at].0@ by {
            assert(short[j] == fields[j]);
        }
        lemma_fields_update(short, at);
        assert(fields.last() == fields[fields.len() - 1]);
    }
    assert forall|key: String, value: Json| key@ == fields[at].0@ implies fields_tree(
        #[trigger] fields.update(at, (key, value)),
    ) == fields_tree(fields).insert(key@, value.tree()) by {
        let new = fields.update(at, (key, value));
        if at == fields.len() - 1 {
            assert(new.drop_last() =~= short);
        } else {
            assert(new.drop_last() =~= short.update(at, (key, value)));
            assert(new.last() == fields.last());
        }
        assert(fields_tree(new) =~= fields_tree(fields).insert(key@, value.tree()));
    }
}

/// A key that no member has.
pub proof fn lemma_fields_absent(fields: Seq<(String, Json)>, key: Seq<char>)
    requires
        forall|j: int| 0 <= j < fields.len() ==> (#[trigger] fields[j]).0@ != key,
    ensures
        !fields_tree(fields).dom().contains(key),
    decreases fields.len(),
{
    if fields.len() > 0 {
        let short = fields.drop_last();
        assert forall|j: int| 0 <= j < short.len() implies (#[trigger] short[j]).0@ != key by {
            assert(short[j] == fields[j]);
        }
        lemma_fields_absent(short, key);
        assert(fields.last() == fields[fields.len() - 1]);
    }
}

/// Where the member that counts for `key` stands, or the number of members if there is none.
fn position(fields: &Vec<(String, Json)>, key: &str) -> (at: usize)
    ensures
        at <= fields@.len(),
        at < fields@.len() ==> fields@[at as int].0@ == key@,
        at < fields@.len() ==> forall|j: int|
            at < j < fields@.len() ==> (#[trigger] fields@[j]).0@ != key@,
        at == fields@.len() ==> forall|j: int|
            0 <= j < fields@.len() ==> (#[trigger] fields@[j]).0@ != key@,
{
    let n: usize = fields.len();
    let mut i: usize = n;
    while i > 0
        invariant
            i <= n,
            n == fields@.len(),
            forall|j: int| i <= j < n ==> (#[trigger] fields@[j]).0@ != key@,
        decreases i,
    {
        i = i - 1;
        if same_text(fields[i].0.as_str(), key) {
            return i;
        }
    }
    n
}

impl Json {
    /// What this value is.
    pub open spec fn tree(self) -> JsonTree
        decreases self,
    {
        match self {
            Json::Null => JsonTree::Null,
            Json::Bool(b) => JsonTree::Bool(b),
            Json::Number(n) => JsonTree::Number(n.tree()),
            Json::Text(s) => JsonTree::Text(s@),
            Json::Array(a) => JsonTree::Array(items_tree(a@)),
            Json::Object(o) => JsonTree::Object(fields_tree(o@)),
        }
    }

    /// A JSON string.
    pub fn text(s: &str) -> (value: Json)
        ensures
            value.tree() == JsonTree::Text(s@),
    {
        Json::Text(s.to_string())
    }

    /// A JSON number.
    pub fn unsigned(n: u64) -> (value: Json)
        ensures
            value.tree() == unsigned_tree(n),
    {
        Json::Number(Number::from_unsigned(n))
    }

    /// The object without members.
    pub fn object() -> (value: Json)
        ensures
            value.tree() == empty_object(),
    {
        Json::Object(Vec::new())
    }

    /// A JSON array of strings.
    pub fn array_of_texts(list: &Vec<String>) -> (value: Json)
        ensures
            value.tree() == JsonTree::Array(
                texts(list@).map_values(|s: Seq<char>| JsonTree::Text(s)),
            ),
    {
        let mut items: Vec<Json> = Vec::new();
        let n: usize = list.len();
        for i in 0..n
            invariant
                n == list@.len(),
                items_tree(items@) =~= texts(list@).map_values(
                    |s: Seq<char>| JsonTree::Text(s),
                ).take(i as int),
        {
            let item = Json::text(list[i].as_str());
            proof {
                lemma_items_push(items@, item);
            }
            items.push(item);
        }
        assert(items_tree(items@) =~= texts(list@).map_values(|s: Seq<char>| JsonTree::Text(s)));
        Json::Array(items)
    }

    /// The member under `key`, if this is an object that has it.
    pub fn get(&self, key: &str) -> (found: Option<&Json>)
        ensures
            match found {
                Some(v) => self.tree().field(key@) == Some(v.tree()),
                None => self.tree().field(key@) is None,
            },
    {
        match self {
            Json::Object(fields) => {
                let at: usize = position(fields, key);
                if at < fields.len() {
                    proof {
                        lemma_fields_update(fields@, at as int);
                    }
                    Some(&fields[at].1)
                } else {
                    proof {
                        lemma_fields_absent(fields@, key@);
                    }
                    None
                }
            },
            _ => None,
        }
    }

    /// The member under `key`, to be changed, if this is an object that has it.
    pub fn get_mut(&mut self, key: &str) -> (found: Option<&mut Json>)
        ensures
            match found {
                Some(v) => old(self).tree().field(key@) == Some(v.tree()) && final(self).tree()
                    == old(self).tree().with(key@, final(v).tree()),
                None => old(self).tree().field(key@) is None && *final(self) == *old(self),
            },
    {
        match self {
            Json::Object(fields) => {
                let at: usize = position(fields, key);
                if at < fields.len() {
                    proof {
                        lemma_fields_update(fields@, at as int);
                    }
                    Some(&mut fields[at].1)
                } else {
                    proof {
                        lemma_fields_absent(fields@, key@);
                    }
                    None
                }
            },
            _ => None,
        }
    }

    /// Sets the member under `key`.
    pub fn set(&mut self, key: &str, value: Json)
        requires
            old(self).tree().takes_fields(),
        ensures
            final(self).tree() == old(self).tree().with(key@, value.tree()),
    {
        if let Json::Null = self {
            *self = Json::Object(Vec::new());
        }
        if let Json::Object(fields) = self {
            set_field(fields, key, value);
        }
    }

    /// The characters, if this is a string.
    pub fn as_str(&self) -> (text: Option<&str>)
        ensures
            match text {
                Some(s) => self.tree().text() == Some(s@),
                None => self.tree().text() is None,
            },
    {
        match self {
            Json::Text(s) => Some(s.as_str()),
            _ => None,
        }
    }

    /// The value, if this is a number that is an unsigned 64-bit integer.
    pub fn as_u64(&self) -> (value: Option<u64>)
        ensures
            value == self.tree().unsigned(),
    {
        match self {
            Json::Number(n) => n.unsigned,
            _ => None,
        }
    }

    /// The elements, if this is an array.
    pub fn as_array(&self) -> (items: Option<&Vec<Json>>)
        ensures
            match items {
                Some(a) => self.tree().items() == Some(items_tree(a@)),
                None => self.tree().items() is None,
            },
    {
        match self {
            Json::Array(a) => Some(a),
            _ => None,
        }
    }

    /// Whether this is an object.
    pub fn is_object(&self) -> (answer: bool)
        ensures
            answer == (self.tree() is Object),
    {
        match self {
            Json::Object(_) => true,
            _ => false,
        }
    }

    /// The characters of the member under `key`, if there is such a member and it is a string.
    pub fn get_str(&self, key: &str) -> (text: Option<&str>)
        ensures
            match text {
                Some(s) => self.tree().field_text(key@) == Some(s@),
                None => self.tree().field_text(key@) is None,
            },
    {
        match self.get(key) {
            Some(v) => v.as_str(),
            None => None,
        }
    }

    /// The value of the member under `key`, if there is such a member and it is an unsigned
    /// 64-bit integer.
    pub fn get_u64(&self, key: &str) -> (value: Option<u64>)
        ensures
            value == self.tree().field_unsigned(key@),
    {
        match self.get(key) {
            Some(v) => v.as_u64(),
            None => None,
        }
    }

    /// The elements of the member under `key`, if there is such a member and it is an array.
    pub fn get_array(&self, key: &str) -> (items: Option<&Vec<Json>>)
        ensures
            match items {
                Some(a) => self.tree().field_items(key@) == Some(items_tree(a@)),
                None => self.tree().field_items(key@) is None,
            },
    {
        match self.get(key) {
            Some(v) => v.as_array(),
            None => None,
        }
    }

    /// The member under `inner` of the member under `outer`.
    pub fn get_in(&self, outer: &str, inner: &str) -> (found: Option<&Json>)
        ensures
            match found {
                Some(v) => self.tree().field_in(outer@, inner@) == Some(v.tree()),
                None => self.tree().field_in(outer@, inner@) is None,
            },
    {
        match self.get(outer) {
            Some(v) => v.get(inner),
            None => None,
        }
    }
}

/// Sets the member under `key`: the one that counts is replaced, a new key is added.
fn set_field(fields: &mut Vec<(String, Json)>, key: &str, value: Json)
    ensures
        fields_tree(final(fields)@) == fields_tree(old(fields)@).insert(key@, value.tree()),
{
    let at: usize = position(fields, key);
    if at < fields.len() {
        proof {
            lemma_fields_update(fields@, at as int);
        }
        fields.set(at, (key.to_string(), value));
    } else {
        let ghost before = fields@;
        fields.push((key.to_string(), value));
        assert(fields@.drop_last() =~= before);
    }
}

/// Changes the last of some values, if there is one.
pub fn last_mut(items: &mut Vec<Json>) -> (found: Option<&mut Json>)
    ensures
        match found {
            Some(v) => old(items)@.len() > 0 && v.tree() == items_tree(old(items)@).last()
                && items_tree(final(items)@) == items_tree(old(items)@).update(
                old(items)@.len() - 1,
                final(v).tree(),
            ),
            None => old(items)@.len() == 0 && final(items)@ == old(items)@,
        },
{
    let n: usize = items.len();
    if n == 0 {
        None
    } else {
        proof {
            lemma_items_tree(items@);
            lemma_items_update(items@, n - 1);
        }
        Some(&mut items[n - 1])
    }
}

impl Clone for Json {
    fn clone(&self) -> (copy: Json)
        ensures
            copy.tree() == self.tree(),
        decreases self,
    {
        match self {
            Json::Null => Json::Null,
            Json::Bool(b) => Json::Bool(*b),
            Json::Number(n) => Json::Number(Number { unsigned: n.unsigned, text: n.text.clone() }),
            Json::Text(s) => Json::Text(s.clone()),
            Json::Array(items) => {
                let mut out: Vec<Json> = Vec::new();
                let n: usize = items.len();
                for i in 0..n
                    invariant
                        n == items@.len(),
                        self == Json::Array(*items),
                        items_tree(out@) == items_tree(items@.take(i as int)),
                {
                    assert(decreases_to!(self => self->Array_0));
                    assert(decreases_to!(items => items@));
                    assert(decreases_to!(items@ => items@[i as int]));
                    let item = items[i].clone();
                    proof {
                        lemma_items_push(out@, item);
                        assert(items@.take(i + 1).drop_last() =~= items@.take(i as int));
                    }
                    out.push(item);
                }
                assert(items@.take(n as int) =~= items@);
                Json::Array(out)
            },
            Json::Object(fields) => {
                let mut out: Vec<(String, Json)> = Vec::new();
                let n: usize = fields.len();
                for i in 0..n
                    invariant
                        n == fields@.len(),
                        self == Json::Object(*fields),
                        fields_tree(out@) == fields_tree(fields@.take(i as int)),
                {
                    let key = fields[i].0.clone();
                    assert(decreases_to!(self => self->Object_0));
                    assert(decreases_to!(fields => fields@));
                    assert(decreases_to!(fields@ => fields@[i as int]));
                    assert(decreases_to!(fields@[i as int] => fields@[i as int].1));
                    let value = fields[i].1.clone();
                    let ghost before = out@;
                    out.push((key, value));
                    assert(out@.drop_last() =~= before);
                    assert(fields@.take(i + 1).drop_last() =~= fields@.take(i as int));
                }
                assert(fields@.take(n as int) =~= fields@);
                Json::Object(out)
            },
        }
    }
}

} // verus!
