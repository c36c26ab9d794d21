//! JSON values as the protocol reads and writes them.
//!
//! Text is parsed and printed by `serde_json`. Everything between, the
//! lookup of members and the reading of strings and numbers, works on
//! [`Json`], a plain tree, and is verified.

use vstd::prelude::*;
use serde_json::Value;

verus! {

/// A JSON value.
///
/// A number is held as `Unsigned` where it is an integer from zero up,
/// as `Signed` where it is a negative integer, and otherwise as `Float`,
/// by the text in which it is written. An object keeps its members in a
/// list; where a name occurs twice, the later member counts.
#[derive(Debug)]
pub enum Json {
    Null,
    Bool(bool),
    Unsigned(u64),
    Signed(i64),
    Float(String),
    Text(String),
    Array(Vec<Json>),
    Object(Vec<(String, Json)>),
}

/// A JSON value as a mathematical tree.
pub enum JsonValue {
    Null,
    Bool(bool),
    Unsigned(u64),
    Signed(i64),
    Float(Seq<char>),
    Text(Seq<char>),
    Array(Seq<JsonValue>),
    Object(Seq<(Seq<char>, JsonValue)>),
}

/// The tree that a [`Json`] stands for.
pub open spec fn json_value(json: Json) -> JsonValue
    decreases json,
{
    match json {
        Json::Null => JsonValue::Null,
        Json::Bool(b) => JsonValue::Bool(b),
        Json::Unsigned(n) => JsonValue::Unsigned(n),
        Json::Signed(n) => JsonValue::Signed(n),
        Json::Float(digits) => JsonValue::Float(digits@),
        Json::Text(s) => JsonValue::Text(s@),
        Json::Array(items) => JsonValue::Array(
            Seq::new(
                items@.len(),
                |i: int|
                    if 0 <= i < items@.len() {
                        json_value(items@[i])
                    } else {
                        JsonValue::Null
                    },
            ),
        ),
        Json::Object(members) => JsonValue::Object(
            Seq::new(
                members@.len(),
                |i: int|
                    if 0 <= i < members@.len() {
                        (members@[i].0@, json_value(members@[i].1))
                    } else {
                        (Seq::<char>::empty(), JsonValue::Null)
                    },
            ),
        ),
    }
}

impl View for Json {
    type V = JsonValue;

    open spec fn view(&self) -> JsonValue {
        json_value(*self)
    }
}

/// `serde_json::Value`, carried between the parser or the printer and the
/// conversion to [`Json`]; nothing is read from it in verified code.
#[verifier::external_type_specification]
#[verifier::external_body]
pub struct ExValue(serde_json::Value);

/// The value that `serde_json::from_str` reads from a text, or `None` where
/// it reports an error.
pub uninterp spec fn json_parse(text: Seq<char>) -> Option<JsonValue>;

/// The compact text that `serde_json::to_string` prints for a value, or
/// `None` where it reports an error or the value holds a `Float` that is no
/// finite number.
pub uninterp spec fn json_text(value: JsonValue) -> Option<Seq<char>>;

/// Rebuilds a `serde_json::Value` as a [`Json`], variant by variant. A number
/// goes to `Unsigned` where `as_u64` gives it, else to `Signed` where
/// `as_i64` gives it, else to `Float` with the text that the number prints
/// as. Members come in the order in which the map hands them out.
#[verifier::external_body]
fn json_of_value(value: &Value) -> Json {
    match value {
        Value::Null => Json::Null,
        Value::Bool(b) => Json::Bool(*b),
        Value::Number(n) => match (n.as_u64(), n.as_i64()) {
            (Some(u), _) => Json::Unsigned(u),
            (_, Some(i)) => Json::Signed(i),
            _ => Json::Float(n.to_string()),
        },
        Value::String(s) => Json::Text(s.clone()),
        Value::Array(a) => Json::Array(a.iter().map(json_of_value).collect()),
        Value::Object(m) => Json::Object(
            m.iter().map(|(k, v)| (k.clone(), json_of_value(v))).collect(),
        ),
    }
}

/// Rebuilds a [`Json`] as a `serde_json::Value`, variant by variant, each
/// leaf through `serde_json`'s own `From`. The text of a `Float` is read back
/// as a number through `Number::from_f64`; where that gives none, there is
/// no value. Members are inserted in order, so a later member replaces an
/// earlier one of the same name.
#[verifier::external_body]
fn value_of_json(json: &Json) -> Option<Value> {
    Some(match json {
        Json::Null => Value::Null,
        Json::Bool(b) => Value::from(*b),
        Json::Unsigned(n) => Value::from(*n),
        Json::Signed(n) => Value::from(*n),
        Json::Float(digits) => Value::Number(serde_json::Number::from_f64(digits.parse().ok()?)?),
        Json::Text(s) => Value::from(s.as_str()),
        Json::Array(items) => Value::Array(items.iter().map(value_of_json).collect::<Option<_>>()?),
        Json::Object(members) => Value::Object(
            members.iter().map(|(k, v)| Some((k.clone(), value_of_json(v)?))).collect::<Option<_>>()?,
        ),
    })
}

/// Parses a text with `serde_json::from_str`. The result is what the parser
/// reads, named [`json_parse`]; an error of the parser becomes `None`.
#[verifier::external_body]
pub(crate) fn parse_json(text: &str) -> (r: Option<Json>)
    ensures
        match r {
            Some(json) => json_parse(text@) == Some(json@),
            None => json_parse(text@) is None,
        },
{
    match serde_json::from_str::<Value>(text) {
        Ok(value) => Some(json_of_value(&value)),
        Err(_) => None,
    }
}

/// Prints a value with `serde_json::to_string`. The result is what the
/// printer writes, named [`json_text`]; an error of the printer becomes
/// `None`, and so does a `Float` whose text is no finite number.
#[verifier::external_body]
pub(crate) fn print_json(json: &Json) -> (r: Option<String>)
    ensures
        match r {
            Some(text) => json_text(json@) == Some(text@),
            None => json_text(json@) is None,
        },
{
    serde_json::to_string(&value_of_json(json)?).ok()
}

/// Among the members of an object, the value of the last one named `key`.
pub open spec fn member_lookup(members: Seq<(Seq<char>, JsonValue)>, key: Seq<char>) -> Option<
    JsonValue,
>
    decreases members.len(),
{
    if members.len() == 0 {
        None
    } else if members.last().0 == key {
        Some(members.last().1)
    } else {
        member_lookup(members.drop_last(), key)
    }
}

/// The member `key` of a value: `None` where the value is no object or has no
/// such member.
pub open spec fn json_member(value: JsonValue, key: Seq<char>) -> Option<JsonValue> {
    match value {
        JsonValue::Object(members) => member_lookup(members, key),
        _ => None,
    }
}

/// The characters of a value that is a string.
pub open spec fn json_str(value: JsonValue) -> Option<Seq<char>> {
    match value {
        JsonValue::Text(s) => Some(s),
        _ => None,
    }
}

/// The number of a value that is an integer from zero up.
pub open spec fn json_u64(value: JsonValue) -> Option<u64> {
    match value {
        JsonValue::Unsigned(n) => Some(n),
        _ => None,
    }
}

/// The items of a value that is an array.
pub open spec fn json_array(value: JsonValue) -> Option<Seq<JsonValue>> {
    match value {
        JsonValue::Array(items) => Some(items),
        _ => None,
    }
}

/// The string held by the member `key`, if there is such a member and it is a
/// string.
pub open spec fn json_str_member(value: JsonValue, key: Seq<char>) -> Option<Seq<char>> {
    match json_member(value, key) {
        Some(member) => json_str(member),
        None => None,
    }
}

/// The number held by the member `key`, if there is such a member and it is
/// an integer from zero up.
pub open spec fn json_u64_member(value: JsonValue, key: Seq<char>) -> Option<u64> {
    match json_member(value, key) {
        Some(member) => json_u64(member),
        None => None,
    }
}

impl Json {
    /// The member named `key`, as `serde_json`'s `Value::get` finds it: the
    /// last such member of an object, nothing in any other value.
    pub fn get(&self, key: &str) -> (r: Option<&Json>)
        ensures
            match r {
                Some(member) => json_member(self@, key@) == Some(member@),
                None => json_member(self@, key@) is None,
            },
    {
        match self {
            Json::Object(members) => {
                let ghost all = self@->Object_0;
                let wanted: String = key.to_owned();
                let mut at: usize = members.len();
                assert(all.subrange(0, at as int) =~= all);
                while at > 0
                    invariant
                        at <= members@.len(),
                        wanted@ == key@,
                        self@ == JsonValue::Object(all),
                        all.len() == members@.len(),
                        forall|i: int|
                            0 <= i < members@.len() ==> all[i] == (members@[i].0@, members@[i].1@),
                        member_lookup(all, key@) == member_lookup(all.subrange(0, at as int), key@),
                    decreases at,
                {
                    at = at - 1;
                    let ghost prefix = all.subrange(0, at as int + 1);
                    assert(prefix.drop_last() =~= all.subrange(0, at as int));
                    if members[at].0 == wanted {
                        return Some(&members[at].1);
                    }
                }
                None
            },
            _ => None,
        }
    }

    /// The string this value is, if it is one.
    pub fn as_str(&self) -> (r: Option<&str>)
        ensures
            match r {
                Some(s) => json_str(self@) == Some(s@),
                None => json_str(self@) is None,
            },
    {
        match self {
            Json::Text(s) => Some(s.as_str()),
            _ => None,
        }
    }

    /// The integer this value is, if it is one from zero up.
    pub fn as_u64(&self) -> (r: Option<u64>)
        ensures
            r == json_u64(self@),
    {
        match self {
            Json::Unsigned(n) => Some(*n),
            _ => None,
        }
    }

    /// The items of this value, if it is an array.
    pub fn as_array(&self) -> (r: Option<&Vec<Json>>)
        ensures
            match r {
                Some(items) => json_array(self@) is Some && json_array(self@)->Some_0.len()
                    == items@.len() && forall|i: int|
                    0 <= i < items@.len() ==> json_array(self@)->Some_0[i] == items@[i]@,
                None => json_array(self@) is None,
            },
    {
        match self {
            Json::Array(items) => Some(items),
            _ => None,
        }
    }
}

/// The members of an object, each by the view of its name and of its value.
pub open spec fn members_value(members: Seq<(String, Json)>) -> Seq<(Seq<char>, JsonValue)> {
    Seq::new(members.len(), |i: int| (members[i].0@, members[i].1@))
}

/// An object with the given members, in their order.
pub fn object_of(members: Vec<(String, Json)>) -> (json: Json)
    ensures
        json@ == JsonValue::Object(members_value(members@)),
{
    let ghost wanted = members_value(members@);
    let json = Json::Object(members);
    assert(json@->Object_0 =~= wanted);
    json
}

/// The items of an array, each by its view.
pub open spec fn items_value(items: Seq<Json>) -> Seq<JsonValue> {
    Seq::new(items.len(), |i: int| items[i]@)
}

/// An array with the given items, in their order.
pub fn array_of(items: Vec<Json>) -> (json: Json)
    ensures
        json@ == JsonValue::Array(items_value(items@)),
{
    let ghost wanted = items_value(items@);
    let json = Json::Array(items);
    assert(json@->Array_0 =~= wanted);
    json
}

/// A string value with the characters of `text`.
pub fn text_of(text: &str) -> (json: Json)
    ensures
        json@ == JsonValue::Text(text@),
{
    Json::Text(text.to_owned())
}

/// Whether two strings hold the same characters.
pub fn str_equal(a: &str, b: &str) -> (r: bool)
    ensures
        r == (a@ == b@),
{
    let left: String = a.to_owned();
    let right: String = b.to_owned();
    left == right
}

/// Looking a name up after one more member was added: the new member
/// answers for its own name and hides any earlier one of that name; every
/// other name is answered as before.
pub proof fn lemma_lookup_push(
    members: Seq<(Seq<char>, JsonValue)>,
    name: Seq<char>,
    value: JsonValue,
    key: Seq<char>,
)
    ensures
        member_lookup(members.push((name, value)), key) == if name == key {
            Some(value)
        } else {
            member_lookup(members, key)
        },
{
    assert(members.push((name, value)).drop_last() =~= members);
}

} // verus!
