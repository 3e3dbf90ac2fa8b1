//! JSON documents: what a `serde_json` value holds, and the calls that read,
//! build, parse and write one.

use serde_json::Value;
use vstd::prelude::*;

verus! {

/// A JSON document.
///
/// An integer is one between `i64::MIN` and `u64::MAX`. Every other number is a
/// finite double, held here by its bits.
#[verifier::ext_equal]
pub enum Json {
    Null,
    Bool(bool),
    Int(int),
    Double(u64),
    Text(Seq<char>),
    Array(Seq<Json>),
    Object(Map<Seq<char>, Json>),
}

/// The number of levels of arrays and objects that the parser accepts.
pub open spec fn max_nesting() -> nat {
    127
}

/// Whether `value` has at most `levels` levels of arrays and objects.
pub open spec fn nested_within(value: Json, levels: nat) -> bool
    decreases levels,
{
    match value {
        Json::Array(items) => levels > 0 && forall|i: int|
            0 <= i < items.len() ==> nested_within(#[trigger] items[i], (levels - 1) as nat),
        Json::Object(fields) => levels > 0 && forall|key: Seq<char>| #[trigger]
            fields.dom().contains(key) ==> nested_within(fields[key], (levels - 1) as nat),
        _ => true,
    }
}

/// The member `name` of `value`, where `value` is an object that has one.
pub open spec fn member(value: Json, name: Seq<char>) -> Option<Json> {
    match value {
        Json::Object(fields) => field(fields, name),
        _ => None,
    }
}

/// The member `name` of an object with these members.
pub open spec fn field(fields: Map<Seq<char>, Json>, name: Seq<char>) -> Option<Json> {
    if fields.dom().contains(name) {
        Some(fields[name])
    } else {
        None
    }
}

/// The member `name`, where there is one and it is not `null`.
pub open spec fn present(fields: Map<Seq<char>, Json>, name: Seq<char>) -> bool {
    field(fields, name) is Some && field(fields, name)->Some_0 != Json::Null
}

/// The integer that `value` is, where it fits in a signed 64-bit integer.
pub open spec fn as_int(value: Json) -> Option<i64> {
    match value {
        Json::Int(number) => if i64::MIN <= number <= i64::MAX {
            Some(number as i64)
        } else {
            None
        },
        _ => None,
    }
}

/// The array of these integers.
pub open spec fn int_array(numbers: Seq<i64>) -> Json {
    Json::Array(numbers.map_values(|number: i64| Json::Int(number as int)))
}

/// An object without members.
pub open spec fn no_fields() -> Map<Seq<char>, Json> {
    Map::empty()
}

/// A shallow value put into an object keeps the object within its levels.
pub proof fn lemma_insert_keeps_nesting(
    fields: Map<Seq<char>, Json>,
    name: Seq<char>,
    value: Json,
    levels: nat,
)
    requires
        levels > 0,
        nested_within(Json::Object(fields), levels),
        nested_within(value, (levels - 1) as nat),
    ensures
        nested_within(Json::Object(fields.insert(name, value)), levels),
{
    let inserted = fields.insert(name, value);
    assert forall|key: Seq<char>| #[trigger] inserted.dom().contains(key) implies nested_within(
        inserted[key],
        (levels - 1) as nat,
    ) by {
        if key != name {
            lemma_member_nesting(Json::Object(fields), key, levels);
        }
    }
}

/// An object keeps within its levels when it loses a member.
pub proof fn lemma_remove_keeps_nesting(
    fields: Map<Seq<char>, Json>,
    name: Seq<char>,
    levels: nat,
)
    requires
        nested_within(Json::Object(fields), levels),
    ensures
        nested_within(Json::Object(fields.remove(name)), levels),
{
    let removed = fields.remove(name);
    assert forall|key: Seq<char>| #[trigger] removed.dom().contains(key) implies nested_within(
        removed[key],
        (levels - 1) as nat,
    ) by {
        lemma_member_nesting(Json::Object(fields), key, levels);
    }
}

/// A member of an object has one level less than the object.
proof fn lemma_member_nesting(value: Json, name: Seq<char>, levels: nat)
    requires
        nested_within(value, levels),
        member(value, name) is Some,
    ensures
        levels > 0,
        nested_within(member(value, name)->Some_0, (levels - 1) as nat),
{
    match value {
        Json::Object(fields) => {
            assert(fields.dom().contains(name));
        },
        _ => {},
    }
}

/// What is within some levels is within more of them.
pub proof fn lemma_nesting_widens(value: Json, levels: nat, more: nat)
    requires
        nested_within(value, levels),
        levels <= more,
    ensures
        nested_within(value, more),
    decreases levels,
{
    match value {
        Json::Array(items) => {
            assert forall|i: int| 0 <= i < items.len() implies nested_within(
                #[trigger] items[i],
                (more - 1) as nat,
            ) by {
                lemma_nesting_widens(items[i], (levels - 1) as nat, (more - 1) as nat);
            }
        },
        Json::Object(fields) => {
            assert forall|key: Seq<char>| #[trigger] fields.dom().contains(key) implies nested_within(
                fields[key],
                (more - 1) as nat,
            ) by {
                lemma_nesting_widens(fields[key], (levels - 1) as nat, (more - 1) as nat);
            }
        },
        _ => {},
    }
}

#[verifier::external_type_specification]
#[verifier::external_body]
pub struct ExValue(serde_json::Value);

#[verifier::external_type_specification]
#[verifier::external_body]
#[verifier::reject_recursive_types(K)]
#[verifier::reject_recursive_types(V)]
pub struct ExObject<K, V>(serde_json::Map<K, V>);

/// The document that a `serde_json::Value` holds.
pub uninterp spec fn json_of(value: serde_json::Value) -> Json;

/// The members that a `serde_json::Map` holds.
pub uninterp spec fn fields_of(
    object: serde_json::Map<String, serde_json::Value>,
) -> Map<Seq<char>, Json>;

/// What `serde_json::from_slice` makes of `text`: a document, or the text of its
/// error.
pub uninterp spec fn json_parse(text: Seq<u8>) -> Result<Json, Seq<char>>;

/// What `serde_json::to_vec` writes for a document.
pub uninterp spec fn json_text(value: Json) -> Seq<u8>;

/// The documents of several values.
pub open spec fn items_of(values: Seq<serde_json::Value>) -> Seq<Json> {
    values.map_values(|value: serde_json::Value| json_of(value))
}

/// The document of an optional value.
pub open spec fn value_of(value: Option<serde_json::Value>) -> Option<Json> {
    match value {
        Some(value) => Some(json_of(value)),
        None => None,
    }
}

/// The document of an optional borrowed value.
pub open spec fn value_ref_of(value: Option<&serde_json::Value>) -> Option<Json> {
    match value {
        Some(value) => Some(json_of(*value)),
        None => None,
    }
}

/// The outcome of a parse.
pub open spec fn parsed_as(outcome: Result<serde_json::Value, String>) -> Result<
    Json,
    Seq<char>,
> {
    match outcome {
        Ok(value) => Ok(json_of(value)),
        Err(error) => Err(error@),
    }
}

/// `serde_json::from_slice` for a `Value`, its error turned into text.
///
/// The outcome depends on the bytes alone. A document nested deeper than
/// [`max_nesting`] is refused. No name of a member has a meaning to the parser:
/// `serde_json` is built without raw values and without arbitrary precision.
#[verifier::external_body]
pub(crate) fn parse_json(text: &[u8]) -> (outcome: Result<Value, String>)
    ensures
        parsed_as(outcome) == json_parse(text@),
        outcome is Ok ==> nested_within(json_of(outcome->Ok_0), max_nesting()),
{
    serde_json::from_slice(text).map_err(|error| error.to_string())
}

/// Whether the parser reads `value` from `text`.
pub open spec fn reads_as(text: Seq<u8>, value: Json) -> bool {
    json_parse(text) == Ok::<Json, Seq<char>>(value)
}

/// `serde_json::to_vec` on an object, its error turned into text.
///
/// Writing a `Map` of values never fails, what is written depends on the document
/// alone, and the parser reads the same document back from it.
#[verifier::external_body]
pub(crate) fn write_object(object: &serde_json::Map<String, Value>) -> (outcome: Result<
    Vec<u8>,
    String,
>)
    requires
        nested_within(Json::Object(fields_of(*object)), max_nesting()),
    ensures
        outcome is Ok,
        outcome->Ok_0@ == json_text(Json::Object(fields_of(*object))),
        reads_as(outcome->Ok_0@, Json::Object(fields_of(*object))),
{
    serde_json::to_vec(object).map_err(|error| error.to_string())
}

/// Matches a `Value` for an object and hands the object out.
#[verifier::external_body]
pub(crate) fn into_object(value: Value) -> (object: Option<serde_json::Map<String, Value>>)
    ensures
        object is Some <==> json_of(value) is Object,
        object is Some ==> Json::Object(fields_of(object->Some_0)) == json_of(value),
{
    match value {
        Value::Object(object) => Some(object),
        _ => None,
    }
}

/// `serde_json::Value::get` with a name: the member of an object, and nothing
/// for any other value.
#[verifier::external_body]
pub(crate) fn get_member<'a>(value: &'a Value, name: &str) -> (found: Option<&'a Value>)
    ensures
        value_ref_of(found) == member(json_of(*value), name@),
{
    value.get(name)
}

/// `serde_json::Map::get`: the member of that name, where there is one.
#[verifier::external_body]
pub(crate) fn get_field<'a>(
    object: &'a serde_json::Map<String, Value>,
    name: &str,
) -> (found: Option<&'a Value>)
    ensures
        value_ref_of(found) == field(fields_of(*object), name@),
{
    object.get(name)
}

/// `serde_json::Map::insert`: sets the member of that name, whether or not there
/// was one.
#[verifier::external_body]
pub(crate) fn set_field(object: &mut serde_json::Map<String, Value>, name: &str, value: Value)
    ensures
        fields_of(*final(object)) == fields_of(*old(object)).insert(name@, json_of(value)),
{
    object.insert(name.to_string(), value);
}

/// `serde_json::Map::remove`: takes the member of that name out.
#[verifier::external_body]
pub(crate) fn remove_field(object: &mut serde_json::Map<String, Value>, name: &str)
    ensures
        fields_of(*final(object)) == fields_of(*old(object)).remove(name@),
{
    object.remove(name);
}

/// `serde_json::Map::new`: an object without members.
pub assume_specification[ serde_json::Map::<String, Value>::new ]() -> (object: serde_json::Map<
    String,
    Value,
>)
    ensures
        fields_of(object) == no_fields(),
;

/// `serde_json::Value::as_i64`: an integer that fits, and nothing for any other
/// value.
pub assume_specification[ serde_json::Value::as_i64 ](value: &Value) -> (number: Option<i64>)
    ensures
        number == as_int(json_of(*value)),
;

/// `serde_json::Value::is_null`: whether the value is `null`.
pub assume_specification[ serde_json::Value::is_null ](value: &Value) -> (null: bool)
    ensures
        null == (json_of(*value) == Json::Null),
;

/// `serde_json::Value::as_bool`: a Boolean, and nothing for any other value.
pub assume_specification[ serde_json::Value::as_bool ](value: &Value) -> (truth: Option<bool>)
    ensures
        truth is Some <==> json_of(*value) is Bool,
        truth is Some ==> json_of(*value) == Json::Bool(truth->Some_0),
;

/// `serde_json::Value::as_str`: a string, and nothing for any other value.
pub assume_specification[ serde_json::Value::as_str ](value: &Value) -> (text: Option<&str>)
    ensures
        text is Some <==> json_of(*value) is Text,
        text is Some ==> json_of(*value) == Json::Text(text->Some_0@),
;

/// `serde_json::Value::as_array`: the items of an array, and nothing for any
/// other value.
pub assume_specification[ serde_json::Value::as_array ](value: &Value) -> (items: Option<&Vec<Value>>)
    ensures
        items is Some <==> json_of(*value) is Array,
        items is Some ==> json_of(*value) == Json::Array(items_of(items->Some_0@)),
;

/// `serde_json::Value::clone`: a value that holds the same document.
pub assume_specification[ <Value as Clone>::clone ](value: &Value) -> (copy: Value)
    ensures
        json_of(copy) == json_of(*value),
;

/// The `null` of `serde_json::Value`.
#[verifier::external_body]
pub(crate) fn null_value() -> (value: Value)
    ensures
        json_of(value) == Json::Null,
{
    Value::Null
}

/// A Boolean of `serde_json::Value`.
#[verifier::external_body]
pub(crate) fn bool_value(truth: bool) -> (value: Value)
    ensures
        json_of(value) == Json::Bool(truth),
{
    Value::Bool(truth)
}

/// A string of `serde_json::Value`.
#[verifier::external_body]
pub(crate) fn text_value(text: &str) -> (value: Value)
    ensures
        json_of(value) == Json::Text(text@),
{
    Value::String(text.to_string())
}

/// `serde_json::Value::from` on an `i64`: that integer.
#[verifier::external_body]
pub(crate) fn int_value(number: i64) -> (value: Value)
    ensures
        json_of(value) == Json::Int(number as int),
{
    Value::from(number)
}

/// An object of `serde_json::Value`.
#[verifier::external_body]
pub(crate) fn object_value(object: serde_json::Map<String, Value>) -> (value: Value)
    ensures
        json_of(value) == Json::Object(fields_of(object)),
{
    Value::Object(object)
}

/// `serde_json::to_value` on integers, its error turned into text: an array of
/// them in their order. Turning integers into a value never fails.
#[verifier::external_body]
pub(crate) fn ints_value(numbers: &[i64]) -> (outcome: Result<Value, String>)
    ensures
        outcome is Ok,
        json_of(outcome->Ok_0) == int_array(numbers@),
{
    serde_json::to_value(numbers).map_err(|error| error.to_string())
}

} // verus!
