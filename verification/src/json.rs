//! JSON values, as `serde_json` holds them, and the shapes of the messages that the pool sends.
use crate::text::decimal;
use serde_json::Value;
use vstd::prelude::*;

verus! {

/// What a JSON value holds.
pub enum JsonModel {
    Null,
    Bool(bool),
    /// A number, by the text that it is written as.
    Number(Seq<char>),
    Text(Seq<char>),
    Array(Seq<JsonModel>),
    Object(Map<Seq<char>, JsonModel>),
}

/// A JSON value of `serde_json`.
#[verifier::external_type_specification]
#[verifier::external_body]
pub struct ExValue(serde_json::Value);

/// What `value` holds.
pub uninterp spec fn json_model(value: Value) -> JsonModel;

/// What the JSON text `text` holds; `None` if it is not one JSON value.
pub uninterp spec fn json_parsed(text: Seq<char>) -> Option<JsonModel>;

/// The compact JSON text of a value that holds `model`.
pub uninterp spec fn json_rendered(model: JsonModel) -> Seq<char>;

/// What each of `values` holds.
pub open spec fn json_models(values: Seq<Value>) -> Seq<JsonModel> {
    Seq::new(values.len(), |i: int| json_model(values[i]))
}

/// The members of an object that is filled in order: a key that comes again replaces.
pub open spec fn json_members(members: Seq<(String, Value)>) -> Map<Seq<char>, JsonModel>
    decreases members.len(),
{
    if members.len() == 0 {
        Map::empty()
    } else {
        json_members(members.drop_last()).insert(members.last().0@, json_model(members.last().1))
    }
}

/// Whether `text` is one digit, a point and a zero.
pub open spec fn is_short_decimal(text: Seq<char>) -> bool {
    text.len() == 3 && '0' <= text[0] && text[0] <= '9' && text[1] == '.' && text[2] == '0'
}

/// Calls `serde_json::from_str` for a `Value`; its error is dropped. What it gives is a
/// function of the text. A one-digit number with a zero fraction is written again as it was.
#[verifier::external_body]
pub(crate) fn parse_json(text: &str) -> (value: Option<Value>)
    ensures
        value is Some == json_parsed(text@) is Some,
        value is Some ==> json_model(value->0) == json_parsed(text@)->0,
        is_short_decimal(text@) ==> value is Some && json_model(value->0) == JsonModel::Number(text@),
{
    serde_json::from_str(text).ok()
}

/// Calls `to_string` of `serde_json::Value`. The text is a function of what the value holds: the
/// members of an object are written in the order of their keys. It is compact and escapes
/// control characters, so it has no line break.
#[verifier::external_body]
pub(crate) fn render_json(value: &Value) -> (text: String)
    ensures
        text@ == json_rendered(json_model(*value)),
        !text@.contains('\n'),
{
    value.to_string()
}

/// Calls `serde_json::Value::get` with a text key: the member of an object under that key.
/// There is none where the value is no object or has no such key.
#[verifier::external_body]
pub(crate) fn member<'a>(value: &'a Value, key: &str) -> (found: Option<&'a Value>)
    ensures
        found is Some <==> (json_model(*value) matches JsonModel::Object(members)
            && members.contains_key(key@)),
        json_model(*value) matches JsonModel::Object(members) ==> (found is Some ==> json_model(
            *found->0,
        ) == members[key@]),
{
    value.get(key)
}

/// Calls `serde_json::Value::as_str`: the text of a text value, and nothing for another.
#[verifier::external_body]
pub(crate) fn as_text(value: &Value) -> (text: Option<&str>)
    ensures
        text is Some <==> json_model(*value) is Text,
        text is Some ==> json_model(*value) == JsonModel::Text((text->0)@),
{
    value.as_str()
}

/// Calls `serde_json::Value::as_array`: the elements of an array, and nothing for another
/// value.
#[verifier::external_body]
pub(crate) fn as_elements(value: &Value) -> (elements: Option<&Vec<Value>>)
    ensures
        elements is Some <==> json_model(*value) is Array,
        elements is Some ==> json_model(*value) == JsonModel::Array(json_models((elements->0)@)),
{
    value.as_array()
}

/// Calls `clone` of `serde_json::Value`: a value that holds the same.
#[verifier::external_body]
pub(crate) fn copy_json(value: &Value) -> (copy: Value)
    ensures
        json_model(copy) == json_model(*value),
{
    value.clone()
}

/// Makes `serde_json::Value::Null`.
#[verifier::external_body]
pub(crate) fn json_null() -> (value: Value)
    ensures
        json_model(value) == JsonModel::Null,
{
    Value::Null
}

/// Calls `From<bool>` of `serde_json::Value`.
#[verifier::external_body]
pub(crate) fn json_bool(b: bool) -> (value: Value)
    ensures
        json_model(value) == JsonModel::Bool(b),
{
    Value::from(b)
}

/// Calls `From<u64>` of `serde_json::Value`: a number that is written in decimal digits.
#[verifier::external_body]
pub(crate) fn json_unsigned(n: u64) -> (value: Value)
    ensures
        json_model(value) == JsonModel::Number(decimal(n as int)),
{
    Value::from(n)
}

/// Calls `From<i64>` of `serde_json::Value`: a number that is written in decimal digits, after
/// a minus sign where it is negative.
#[verifier::external_body]
pub(crate) fn json_integer(n: i64) -> (value: Value)
    ensures
        json_model(value) == JsonModel::Number(decimal(n as int)),
{
    Value::from(n)
}

/// Calls `From<&str>` of `serde_json::Value`.
#[verifier::external_body]
pub(crate) fn json_text(text: &str) -> (value: Value)
    ensures
        json_model(value) == JsonModel::Text(text@),
{
    Value::from(text)
}

/// Calls `From<Vec<Value>>` of `serde_json::Value`.
#[verifier::external_body]
pub(crate) fn json_array(elements: Vec<Value>) -> (value: Value)
    ensures
        json_model(value) == JsonModel::Array(json_models(elements@)),
{
    Value::from(elements)
}

/// Calls `FromIterator<(String, Value)>` of `serde_json::Value`: an object with these members,
/// where a later one replaces an earlier one under the same key.
#[verifier::external_body]
pub(crate) fn json_object(members: Vec<(String, Value)>) -> (value: Value)
    ensures
        json_model(value) == JsonModel::Object(json_members(members@)),
{
    members.into_iter().collect()
}

/// A response: the id of the request, a result and an error.
pub open spec fn response_model(id: JsonModel, result: JsonModel, error: JsonModel) -> JsonModel {
    JsonModel::Object(map!["id"@ => id, "result"@ => result, "error"@ => error])
}

/// An error: a code and a message.
pub open spec fn error_model(code: int, message: Seq<char>) -> JsonModel {
    JsonModel::Object(
        map!["code"@ => JsonModel::Number(decimal(code)), "message"@ => JsonModel::Text(message)],
    )
}

/// A notification: a method and its parameters, under a null id.
pub open spec fn notification_model(method: Seq<char>, params: Seq<JsonModel>) -> JsonModel {
    JsonModel::Object(
        map![
            "id"@ => JsonModel::Null,
            "method"@ => JsonModel::Text(method),
            "params"@ => JsonModel::Array(params),
        ],
    )
}

/// Makes an object of three members.
pub(crate) fn object_of_three(
    first: (&str, Value),
    second: (&str, Value),
    third: (&str, Value),
) -> (value: Value)
    ensures
        json_model(value) == JsonModel::Object(
            map![
                first.0@ => json_model(first.1),
                second.0@ => json_model(second.1),
                third.0@ => json_model(third.1),
            ],
        ),
{
    let mut members: Vec<(String, Value)> = Vec::new();
    members.push((first.0.to_owned(), first.1));
    let ghost one = members@;
    members.push((second.0.to_owned(), second.1));
    let ghost two = members@;
    members.push((third.0.to_owned(), third.1));
    proof {
        reveal_with_fuel(json_members, 4);
        assert(one.drop_last() =~= Seq::empty());
        assert(two.drop_last() =~= one);
        assert(members@.drop_last() =~= two);
        assert(json_members(one.drop_last()) == Map::<Seq<char>, JsonModel>::empty());
        assert(json_members(members@) =~= map![
            first.0@ => json_model(first.1),
            second.0@ => json_model(second.1),
            third.0@ => json_model(third.1),
        ]);
    }
    json_object(members)
}

/// Makes a response.
pub fn response(id: Value, result: Value, error: Value) -> (value: Value)
    ensures
        json_model(value) == response_model(json_model(id), json_model(result), json_model(error)),
{
    object_of_three(("id", id), ("result", result), ("error", error))
}

/// Makes an error.
pub fn error_value(code: i64, message: &str) -> (value: Value)
    ensures
        json_model(value) == error_model(code as int, message@),
{
    let mut members: Vec<(String, Value)> = Vec::new();
    members.push(("code".to_owned(), json_integer(code)));
    let ghost one = members@;
    members.push(("message".to_owned(), json_text(message)));
    proof {
        reveal_with_fuel(json_members, 4);
        assert(one.drop_last() =~= Seq::empty());
        assert(members@.drop_last() =~= one);
        assert(json_members(one.drop_last()) == Map::<Seq<char>, JsonModel>::empty());
        assert(JsonModel::Object(json_members(members@)) == error_model(code as int, message@)) by {
            assert(json_members(members@) =~= map![
                "code"@ => JsonModel::Number(decimal(code as int)),
                "message"@ => JsonModel::Text(message@),
            ]);
        }
    }
    json_object(members)
}

/// Makes a notification.
pub fn notification(method: &str, params: Vec<Value>) -> (value: Value)
    ensures
        json_model(value) == notification_model(method@, json_models(params@)),
{
    object_of_three(
        ("id", json_null()),
        ("method", json_text(method)),
        ("params", json_array(params)),
    )
}

/// A message as it goes over the wire: its JSON text and a line break.
pub open spec fn framed(model: JsonModel) -> Seq<char> {
    json_rendered(model) + seq!['\n']
}

/// Frames a message. The line break that ends it is its only one.
pub fn frame(message: &Value) -> (line: String)
    ensures
        line@ == framed(json_model(*message)),
        forall|i: int| 0 <= i < line@.len() - 1 ==> line@[i] != '\n',
{
    let mut line = render_json(message);
    let ghost text = line@;
    line.append("\n");
    proof {
        reveal_strlit("\n");
        assert(line@ =~= framed(json_model(*message)));
        assert forall|i: int| 0 <= i < line@.len() - 1 implies line@[i] != '\n' by {
            assert(line@[i] == text[i]);
        }
    }
    line
}

} // verus!
