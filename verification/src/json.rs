//! JSON documents, read and written through `serde_json`.

use vstd::prelude::*;

verus! {

/// A JSON document held as plain values.
#[derive(Debug, PartialEq, Eq)]
pub enum Json {
    Null,
    Bool(bool),
    /// A number, by its decimal text.
    Number(String),
    Text(String),
    Array(Vec<Json>),
    /// The members of an object, in their order. A lookup takes the first
    /// member of a key.
    Object(Vec<(String, Json)>),
}

/// The mathematical value of a [`Json`] document.
pub enum JsonValue {
    Null,
    Bool(bool),
    Number(Seq<char>),
    Text(Seq<char>),
    Array(Seq<JsonValue>),
    Object(Seq<(Seq<char>, JsonValue)>),
}

impl View for Json {
    type V = JsonValue;

    open spec fn view(&self) -> JsonValue
        decreases self,
    {
        match self {
            Json::Null => JsonValue::Null,
            Json::Bool(b) => JsonValue::Bool(*b),
            Json::Number(n) => JsonValue::Number(n@),
            Json::Text(t) => JsonValue::Text(t@),
            Json::Array(items) => JsonValue::Array(
                Seq::new(
                    items@.len(),
                    |i: int|
                        if 0 <= i < items@.len() {
                            items@[i].view()
                        } else {
                            JsonValue::Null
                        },
                ),
            ),
            Json::Object(members) => JsonValue::Object(
                Seq::new(
                    members@.len(),
                    |i: int|
                        (
                            members@[i].0@,
                            if 0 <= i < members@.len() {
                                members@[i].1.view()
                            } else {
                                JsonValue::Null
                            },
                        ),
                ),
            ),
        }
    }
}

/// The value of the first member with the given key.
pub open spec fn first_with_key(members: Seq<(Seq<char>, JsonValue)>, key: Seq<char>) -> Option<
    JsonValue,
>
    decreases members.len(),
{
    if members.len() == 0 {
        None
    } else if members[0].0 == key {
        Some(members[0].1)
    } else {
        first_with_key(members.drop_first(), key)
    }
}

impl JsonValue {
    /// The member of an object under a key; `None` for a missing key and for
    /// anything that is not an object.
    pub open spec fn member(self, key: Seq<char>) -> Option<JsonValue> {
        match self {
            JsonValue::Object(members) => first_with_key(members, key),
            _ => None,
        }
    }

    /// The items of an array; `None` for anything that is not an array.
    pub open spec fn items(self) -> Option<Seq<JsonValue>> {
        match self {
            JsonValue::Array(items) => Some(items),
            _ => None,
        }
    }

    /// The characters of a string; `None` for anything that is not a string.
    pub open spec fn text(self) -> Option<Seq<char>> {
        match self {
            JsonValue::Text(t) => Some(t),
            _ => None,
        }
    }
}

/// The values of a sequence of documents, in the same order.
pub open spec fn json_views(items: Seq<Json>) -> Seq<JsonValue> {
    Seq::new(items.len(), |i: int| items[i]@)
}

/// The values of the members of an object, in the same order.
pub open spec fn member_views(members: Seq<(String, Json)>) -> Seq<(Seq<char>, JsonValue)> {
    Seq::new(members.len(), |i: int| (members[i].0@, members[i].1@))
}

/// An array's value is made of its items' values.
proof fn lemma_array_view(items: Vec<Json>)
    ensures
        Json::Array(items)@ == JsonValue::Array(json_views(items@)),
{
    let json = Json::Array(items);
    assert(json@->Array_0.len() == items@.len());
    assert forall|i: int| 0 <= i < items@.len() implies #[trigger] json@->Array_0[i]
        == json_views(items@)[i] by {}
    assert(json@->Array_0 =~= json_views(items@));
}

/// An object's value is made of its members' keys and values.
proof fn lemma_object_view(members: Vec<(String, Json)>)
    ensures
        Json::Object(members)@ == JsonValue::Object(member_views(members@)),
{
    let json = Json::Object(members);
    assert(json@->Object_0.len() == members@.len());
    assert forall|i: int| 0 <= i < members@.len() implies #[trigger] json@->Object_0[i]
        == member_views(members@)[i] by {}
    assert(json@->Object_0 =~= member_views(members@));
}

impl Json {
    /// The member of an object under `key`.
    pub fn member(&self, key: &str) -> (found: Option<&Json>)
        ensures
            match found {
                Some(j) => self@.member(key@) == Some(j@),
                None => self@.member(key@) is None,
            },
    {
        match self {
            Json::Object(members) => {
                let wanted = key.to_owned();
                let ghost all = member_views(members@);
                proof {
                    lemma_object_view(*members);
                    assert(all.skip(0) =~= all);
                }
                let mut i: usize = 0;
                while i < members.len()
                    invariant
                        i <= members.len(),
                        wanted@ == key@,
                        all == member_views(members@),
                        self@.member(key@) == first_with_key(all, key@),
                        first_with_key(all, key@) == first_with_key(all.skip(i as int), key@),
                    decreases members.len() - i,
                {
                    proof {
                        let rest = all.skip(i as int);
                        assert(rest[0] == all[i as int]);
                        assert(rest.drop_first() =~= all.skip(i + 1));
                    }
                    if members[i].0 == wanted {
                        return Some(&members[i].1);
                    }
                    i += 1;
                }
                None
            },
            _ => None,
        }
    }

    /// The items of an array.
    pub fn items(&self) -> (found: Option<&Vec<Json>>)
        ensures
            match found {
                Some(items) => self@.items() == Some(json_views(items@)),
                None => self@.items() is None,
            },
    {
        match self {
            Json::Array(items) => {
                proof {
                    lemma_array_view(*items);
                }
                Some(items)
            },
            _ => None,
        }
    }

    /// The characters of a string.
    pub fn text(&self) -> (found: Option<&String>)
        ensures
            match found {
                Some(t) => self@.text() == Some(t@),
                None => self@.text() is None,
            },
    {
        match self {
            Json::Text(t) => Some(t),
            _ => None,
        }
    }
}

/// `serde_json::Value`, opaque here: what one holds is known only through
/// [`value_contents`].
#[verifier::external_type_specification]
#[verifier::external_body]
pub struct ExValue(serde_json::Value);

/// `serde_json::Error`, opaque here: nothing is read from it.
#[verifier::external_type_specification]
#[verifier::external_body]
pub struct ExError(serde_json::Error);

/// What a `serde_json::Value` holds: its variants one for one, a number by the
/// text that its `Display` prints, the members of an object in the order in
/// which its map hands them out.
pub uninterp spec fn value_contents(value: serde_json::Value) -> JsonValue;

/// The document that `serde_json::from_str` reads from a text, or `None` where
/// it rejects the text.
pub uninterp spec fn parsed_json(text: Seq<char>) -> Option<JsonValue>;

/// Calls `serde_json::from_str` for a `serde_json::Value`. The contract gives
/// the outcome its name: the value read holds `parsed_json` of the text, and an
/// error comes back exactly where `parsed_json` is `None`.
#[verifier::external_body]
fn read_value(text: &str) -> (outcome: Result<serde_json::Value, serde_json::Error>)
    ensures
        match outcome {
            Ok(value) => parsed_json(text@) == Some(value_contents(value)),
            Err(_) => parsed_json(text@) is None,
        },
{
    serde_json::from_str::<serde_json::Value>(text)
}

/// One level of a `serde_json::Value`: what it holds itself as plain values,
/// what it holds below itself as it came.
enum Node {
    Null,
    Bool(bool),
    Number(String),
    Text(String),
    Array(Vec<serde_json::Value>),
    Object(Vec<(String, serde_json::Value)>),
}

/// What a [`Node`] holds, the values below it taken by their contents.
spec fn node_contents(node: Node) -> JsonValue {
    match node {
        Node::Null => JsonValue::Null,
        Node::Bool(b) => JsonValue::Bool(b),
        Node::Number(n) => JsonValue::Number(n@),
        Node::Text(t) => JsonValue::Text(t@),
        Node::Array(items) => JsonValue::Array(
            Seq::new(items@.len(), |i: int| value_contents(items@[i])),
        ),
        Node::Object(members) => JsonValue::Object(
            Seq::new(members@.len(), |i: int| (members@[i].0@, value_contents(members@[i].1))),
        ),
    }
}

/// Takes a `serde_json::Value` apart by one level: matches on its variants,
/// calls `to_string` on a `serde_json::Number` and `into_iter` on a
/// `serde_json::Map`. The contract says that the node holds what the value
/// held.
#[verifier::external_body]
fn unpack(value: serde_json::Value) -> (node: Node)
    ensures
        node_contents(node) == value_contents(value),
{
    match value {
        serde_json::Value::Null => Node::Null,
        serde_json::Value::Bool(b) => Node::Bool(b),
        serde_json::Value::Number(n) => Node::Number(n.to_string()),
        serde_json::Value::String(s) => Node::Text(s),
        serde_json::Value::Array(a) => Node::Array(a),
        serde_json::Value::Object(o) => Node::Object(o.into_iter().collect()),
    }
}

/// Moves a `serde_json::Value` into a [`Json`], level by level.
fn lift(value: serde_json::Value) -> (json: Json)
    ensures
        json@ == value_contents(value),
    decreases value_contents(value),
{
    let ghost whole = value_contents(value);
    match unpack(value) {
        Node::Null => Json::Null,
        Node::Bool(b) => Json::Bool(b),
        Node::Number(n) => Json::Number(n),
        Node::Text(t) => Json::Text(t),
        Node::Array(items) => {
            let ghost below = whole->Array_0;
            let ghost all = items@;
            let mut lifted: Vec<Json> = Vec::new();
            for item in it: items.into_iter()
                invariant
                    it.seq() == all,
                    whole == value_contents(value),
                    whole == JsonValue::Array(below),
                    below.len() == all.len(),
                    forall|k: int| 0 <= k < all.len() ==> below[k] == value_contents(all[k]),
                    lifted.len() == it.index(),
                    forall|k: int| 0 <= k < lifted.len() ==> lifted[k]@ == below[k],
            {
                proof {
                    let k = lifted.len() as int;
                    assert(value_contents(item) == below[k]);
                    assert(decreases_to!(whole => whole->Array_0));
                    assert(decreases_to!(whole->Array_0 => whole->Array_0[k]));
                }
                lifted.push(lift(item));
            }
            proof {
                lemma_array_view(lifted);
                assert(json_views(lifted@) =~= below);
            }
            Json::Array(lifted)
        },
        Node::Object(members) => {
            let ghost below = whole->Object_0;
            let ghost all = members@;
            let mut lifted: Vec<(String, Json)> = Vec::new();
            for member in it: members.into_iter()
                invariant
                    it.seq() == all,
                    whole == value_contents(value),
                    whole == JsonValue::Object(below),
                    below.len() == all.len(),
                    forall|k: int|
                        0 <= k < all.len() ==> below[k] == (all[k].0@, value_contents(all[k].1)),
                    lifted.len() == it.index(),
                    forall|k: int|
                        0 <= k < lifted.len() ==> (lifted[k].0@, lifted[k].1@) == below[k],
            {
                proof {
                    let k = lifted.len() as int;
                    assert(value_contents(member.1) == below[k].1);
                    assert(decreases_to!(whole => whole->Object_0));
                    assert(decreases_to!(whole->Object_0 => whole->Object_0[k]));
                    assert(decreases_to!(whole->Object_0[k] => whole->Object_0[k].1));
                }
                let (key, value) = member;
                lifted.push((key, lift(value)));
            }
            proof {
                lemma_object_view(lifted);
                assert(member_views(lifted@) =~= below);
            }
            Json::Object(lifted)
        },
    }
}

/// The JSON string literal that `serde_json::to_string` writes for a text,
/// quotes included, or `None` where it refuses the text.
pub uninterp spec fn json_quoted(text: Seq<char>) -> Option<Seq<char>>;

/// Calls `serde_json::to_string` on a `str`. The contract gives the outcome its
/// name: the literal written is `json_quoted` of the text, and an error comes
/// back exactly where `json_quoted` is `None`.
#[verifier::external_body]
fn write_string(text: &str) -> (outcome: Result<String, serde_json::Error>)
    ensures
        match outcome {
            Ok(literal) => json_quoted(text@) == Some(literal@),
            Err(_) => json_quoted(text@) is None,
        },
{
    serde_json::to_string(text)
}

/// Writes a text as a JSON string literal, with its quotes and escapes.
pub fn quote(text: &str) -> (literal: Option<String>)
    ensures
        match literal {
            Some(l) => json_quoted(text@) == Some(l@),
            None => json_quoted(text@) is None,
        },
{
    match write_string(text) {
        Ok(literal) => Some(literal),
        Err(_) => None,
    }
}

/// Reads a JSON document from a text; `None` where the text is not JSON.
pub fn parse(text: &str) -> (document: Option<Json>)
    ensures
        match document {
            Some(d) => parsed_json(text@) == Some(d@),
            None => parsed_json(text@) is None,
        },
{
    match read_value(text) {
        Ok(value) => Some(lift(value)),
        Err(_) => None,
    }
}

} // verus!
