//! JSON values.
//!
//! The messages of this library are [`serde_json::Value`]s. [`Json`] is the
//! mathematical model of such a value, and [`json_of`] relates the two. Parsing
//! and printing JSON text is `serde_json`'s work; the functions below that are
//! marked `external_body` make those calls, and their contracts say what is
//! relied on.

use serde_json::Value;
use vstd::prelude::*;
use vstd::utf8::encode_utf8;

verus! {

/// `serde_json::Value`: a JSON value, known by [`json_of`].
#[verifier::external_type_specification]
#[verifier::external_body]
pub struct ExValue(serde_json::Value);

/// `serde_json::Map`: the members of a JSON object, known by [`members_of`].
#[verifier::external_type_specification]
#[verifier::external_body]
#[verifier::reject_recursive_types(K)]
#[verifier::reject_recursive_types(V)]
pub struct ExObject<K, V>(serde_json::Map<K, V>);

/// What a JSON value holds.
pub enum Json {
    /// `null`.
    Null,
    /// `true` or `false`.
    Bool(bool),
    /// A number without fraction and exponent.
    Integer(int),
    /// Any other number, as it is printed.
    Fraction(Seq<char>),
    /// A string.
    Text(Seq<char>),
    /// An array.
    Array(Seq<Json>),
    /// An object: its members by name.
    Object(Map<Seq<char>, Json>),
}

/// What `value` holds.
pub uninterp spec fn json_of(value: serde_json::Value) -> Json;

/// The members that an object holds, by name.
pub uninterp spec fn members_of(object: serde_json::Map<String, serde_json::Value>) -> Map<
    Seq<char>,
    Json,
>;

/// The value that `serde_json::from_slice` reads from `bytes`, or the text of its error.
pub uninterp spec fn parsed(bytes: Seq<u8>) -> Result<Json, Seq<char>>;

/// The bytes that `serde_json::to_vec` gives for a value.
pub uninterp spec fn printed(value: Json) -> Seq<u8>;

/// The text that `serde_json::to_string` gives for a value.
pub uninterp spec fn printed_text(value: Json) -> Seq<char>;

/// The text that formatting a value with `{}` gives.
pub uninterp spec fn displayed(value: Json) -> Seq<char>;

/// How deep arrays and objects may nest in a text that `serde_json` reads.
pub open spec fn max_nesting() -> nat {
    127
}

/// No number in `value` has a fraction, and arrays and objects nest at most `depth` deep.
pub open spec fn exact_within(value: Json, depth: nat) -> bool
    decreases depth,
{
    match value {
        Json::Fraction(_) => false,
        Json::Array(items) => depth > 0 && forall|i: int|
            0 <= i < items.len() ==> exact_within(#[trigger] items[i], (depth - 1) as nat),
        Json::Object(members) => depth > 0 && forall|name: Seq<char>| #[trigger]
            members.contains_key(name) ==> exact_within(members[name], (depth - 1) as nat),
        _ => true,
    }
}

/// A value that printing and parsing gives back unchanged: the parser reads
/// fractions with less precision than it prints them, and refuses deep nesting.
pub open spec fn survives_printing(value: Json) -> bool {
    exact_within(value, max_nesting())
}

/// The members of an object that has none.
pub open spec fn empty_object() -> Map<Seq<char>, Json> {
    Map::empty()
}

/// The parser reads `value` from `bytes`.
pub open spec fn reads_as(bytes: Seq<u8>, value: Json) -> bool {
    parsed(bytes) matches Ok(read) && read == value
}

/// A value is read back from what is printed, where it is one that printing
/// preserves.
pub open spec fn prints_faithfully(value: Json) -> bool {
    survives_printing(value) ==> reads_as(printed(value), value)
}

/// The model of a parse result.
pub open spec fn parse_view(result: Result<Value, String>) -> Result<Json, Seq<char>> {
    match result {
        Ok(value) => Ok(json_of(value)),
        Err(error) => Err(error@),
    }
}

/// The result is there, and is these bytes.
pub open spec fn gives_bytes(result: Result<Vec<u8>, String>, bytes: Seq<u8>) -> bool {
    result matches Ok(output) && output@ == bytes
}

/// The result is there, and is this text.
pub open spec fn gives_text(result: Result<String, String>, text: Seq<char>) -> bool {
    result matches Ok(output) && output@ == text
}

/// `Value::clone`: the copy holds what the value holds.
pub assume_specification[ <serde_json::Value as Clone>::clone ](value: &serde_json::Value) -> (copy:
    serde_json::Value)
    ensures
        json_of(copy) == json_of(*value),
;

/// `serde_json::from_slice` into a `Value`: reads one JSON text that fills `bytes`.
/// What it reads depends on the bytes alone; an error is given as its text.
#[verifier::external_body]
pub(crate) fn parse(bytes: &[u8]) -> (result: Result<Value, String>)
    ensures
        parse_view(result) == parsed(bytes@),
{
    match serde_json::from_slice::<Value>(bytes) {
        Ok(value) => Ok(value),
        Err(error) => Err(error.to_string()),
    }
}

/// `serde_json::to_vec` of a `Value`: prints the value without spaces. A `Value`
/// can always be printed: its objects have text for names, and its numbers are
/// finite. The bytes depend on what the value holds alone, and a value whose
/// numbers have no fraction and that nests no deeper than the parser allows is
/// read back from them. An error would be given as its text.
#[verifier::external_body]
pub(crate) fn print(value: &Value) -> (result: Result<Vec<u8>, String>)
    ensures
        gives_bytes(result, printed(json_of(*value))),
        survives_printing(json_of(*value)) ==> (result matches Ok(output) ==> reads_as(
            output@,
            json_of(*value),
        )),
{
    match serde_json::to_vec(value) {
        Ok(bytes) => Ok(bytes),
        Err(error) => Err(error.to_string()),
    }
}

/// `serde_json::to_string` of a `Value`: the text of what `to_vec` gives. A `Value`
/// can always be printed. The text depends on what the value holds alone, and a
/// value whose numbers have no fraction and that nests no deeper than the parser
/// allows is read back from it. An error would be given as its text.
#[verifier::external_body]
pub(crate) fn print_text(value: &Value) -> (result: Result<String, String>)
    ensures
        gives_text(result, printed_text(json_of(*value))),
        survives_printing(json_of(*value)) ==> (result matches Ok(output) ==> reads_as(
            encode_utf8(output@),
            json_of(*value),
        )),
{
    match serde_json::to_string(value) {
        Ok(text) => Ok(text),
        Err(error) => Err(error.to_string()),
    }
}

/// `Display` of a `Value`: the text depends on what the value holds alone.
#[verifier::external_body]
pub(crate) fn display(value: &Value) -> (text: String)
    ensures
        text@ == displayed(json_of(*value)),
{
    value.to_string()
}

/// `Value::Null`.
#[verifier::external_body]
pub(crate) fn null() -> (value: Value)
    ensures
        json_of(value) == Json::Null,
{
    Value::Null
}

/// `Value::from` of a text: a JSON string with these characters.
#[verifier::external_body]
pub(crate) fn text(content: &str) -> (value: Value)
    ensures
        json_of(value) == Json::Text(content@),
{
    Value::from(content)
}

/// `Value::from` of an integer: a JSON number with this value.
#[verifier::external_body]
pub(crate) fn integer(n: i64) -> (value: Value)
    ensures
        json_of(value) == Json::Integer(n as int),
{
    Value::from(n)
}

/// `Value::from` of an unsigned integer: a JSON number with this value.
#[verifier::external_body]
pub(crate) fn unsigned(n: u64) -> (value: Value)
    ensures
        json_of(value) == Json::Integer(n as int),
{
    Value::from(n)
}

/// `Value::from` of a map: a JSON object with the map's members.
#[verifier::external_body]
pub(crate) fn object(members: serde_json::Map<String, Value>) -> (value: Value)
    ensures
        json_of(value) == Json::Object(members_of(members)),
{
    Value::from(members)
}

/// `serde_json::Map::new`: an object without members.
#[verifier::external_body]
pub(crate) fn no_members() -> (members: serde_json::Map<String, Value>)
    ensures
        members_of(members) == empty_object(),
{
    serde_json::Map::new()
}

/// `serde_json::Map::clone`: a map with the same members.
#[verifier::external_body]
pub(crate) fn copy_members(members: &serde_json::Map<String, Value>) -> (copy: serde_json::Map<
    String,
    Value,
>)
    ensures
        members_of(copy) == members_of(*members),
{
    members.clone()
}

/// `serde_json::Map::insert`: sets the member of this name, whether or not the
/// object had one.
#[verifier::external_body]
pub(crate) fn set_member(members: &mut serde_json::Map<String, Value>, name: String, value: Value)
    ensures
        members_of(*final(members)) == members_of(*old(members)).insert(name@, json_of(value)),
{
    members.insert(name, value);
}

/// `serde_json::Map::remove`: takes out the member of this name, if the object
/// has one.
#[verifier::external_body]
pub(crate) fn remove_member(members: &mut serde_json::Map<String, Value>, name: &str)
    ensures
        members_of(*final(members)) == members_of(*old(members)).remove(name@),
{
    members.remove(name);
}

/// `serde_json::Map::is_empty`: whether the object has no member.
#[verifier::external_body]
pub(crate) fn has_no_members(members: &serde_json::Map<String, Value>) -> (none: bool)
    ensures
        none == (members_of(*members) == empty_object()),
{
    members.is_empty()
}

/// `serde_json::Map::iter`: each member once, with its name. The order is left open.
#[verifier::external_body]
pub(crate) fn list_members(members: &serde_json::Map<String, Value>) -> (entries: Vec<
    (String, Value),
>)
    ensures
        forall|i: int|
            #![trigger entries@[i]]
            0 <= i < entries@.len() ==> members_of(*members).contains_key(entries@[i].0@)
                && members_of(*members)[entries@[i].0@] == json_of(entries@[i].1),
        forall|name: Seq<char>| #[trigger]
            members_of(*members).contains_key(name) ==> exists|i: int|
                0 <= i < entries@.len() && (#[trigger] entries@[i]).0@ == name,
        forall|i: int, j: int|
            #![trigger entries@[i], entries@[j]]
            0 <= i < j < entries@.len() ==> entries@[i].0@ != entries@[j].0@,
{
    members.iter().map(|(name, value)| (name.clone(), value.clone())).collect()
}

/// `Value::as_object`: the members of an object, and `None` for any other value.
#[verifier::external_body]
pub(crate) fn as_object(value: &Value) -> (members: Option<&serde_json::Map<String, Value>>)
    ensures
        members matches Some(m) ==> json_of(*value) == Json::Object(members_of(*m)),
        members is None ==> !(json_of(*value) is Object),
{
    value.as_object()
}

/// What the values hold, one by one.
pub open spec fn all_of(values: Seq<Value>) -> Seq<Json> {
    values.map_values(|value: Value| json_of(value))
}

/// `Value::as_array`: the items of an array, and `None` for any other value.
#[verifier::external_body]
pub(crate) fn as_array(value: &Value) -> (items: Option<&Vec<Value>>)
    ensures
        items matches Some(list) ==> json_of(*value) == Json::Array(all_of(list@)),
        items is None ==> !(json_of(*value) is Array),
{
    value.as_array()
}

/// `Value::get` with a name: the member of an object with this name, if it has
/// one, and `None` for a value that is no object.
#[verifier::external_body]
pub(crate) fn member<'a>(value: &'a Value, name: &str) -> (found: Option<&'a Value>)
    ensures
        match json_of(*value) {
            Json::Object(members) => if members.contains_key(name@) {
                found matches Some(v) && json_of(*v) == members[name@]
            } else {
                found is None
            },
            _ => found is None,
        },
{
    value.get(name)
}

/// `Value::as_str`: the characters of a JSON string, and `None` for any other value.
#[verifier::external_body]
pub(crate) fn as_text(value: &Value) -> (content: Option<&str>)
    ensures
        match json_of(*value) {
            Json::Text(characters) => content matches Some(s) && s@ == characters,
            _ => content is None,
        },
{
    value.as_str()
}

/// The member `name` of a JSON object.
pub open spec fn member_of(value: Json, name: Seq<char>) -> Option<Json> {
    match value {
        Json::Object(members) => if members.contains_key(name) {
            Some(members[name])
        } else {
            None
        },
        _ => None,
    }
}

/// A member is found in an object exactly under its own name, whatever its value
/// is, and nowhere in a value that is no object.
pub proof fn law_members_are_found_by_name(
    members: Map<Seq<char>, Json>,
    name: Seq<char>,
    other: Seq<char>,
    value: Json,
)
    ensures
        member_of(Json::Object(members.insert(name, value)), name) == Some(value),
        other != name ==> member_of(Json::Object(members.insert(name, value)), other) == member_of(
            Json::Object(members),
            other,
        ),
        member_of(Json::Object(members.remove(name)), name) is None,
        member_of(Json::Object(members), name) is Some <==> members.contains_key(name),
        !(value is Object) ==> member_of(value, name) is None,
{
}

/// A value without arrays, objects and fractions survives printing; an array or
/// an object does if its items or members do with one level of nesting less.
pub proof fn law_exactness_is_inherited(
    items: Seq<Json>,
    members: Map<Seq<char>, Json>,
    leaf: Json,
    depth: nat,
)
    ensures
        leaf is Null || leaf is Bool || leaf is Integer || leaf is Text ==> exact_within(
            leaf,
            depth,
        ) && survives_printing(leaf),
        exact_within(Json::Array(items), depth + 1) <==> (forall|i: int|
            0 <= i < items.len() ==> exact_within(#[trigger] items[i], depth)),
        exact_within(Json::Object(members), depth + 1) <==> (forall|name: Seq<char>| #[trigger]
            members.contains_key(name) ==> exact_within(members[name], depth)),
        exact_within(leaf, 127) <==> survives_printing(leaf),
{
    let more = (depth + 1) as nat;
    let array = Json::Array(items);
    let object = Json::Object(members);
    if exact_within(array, more) {
        assert forall|i: int| 0 <= i < items.len() implies exact_within(
            #[trigger] items[i],
            depth,
        ) by {
            assert(exact_within(array->Array_0[i], (more - 1) as nat));
        }
    }
    if exact_within(object, more) {
        assert forall|name: Seq<char>| #[trigger] members.contains_key(name) implies exact_within(
            members[name],
            depth,
        ) by {
            assert(object->Object_0.contains_key(name));
            assert(exact_within(object->Object_0[name], (more - 1) as nat));
        }
    }
    if forall|i: int| 0 <= i < items.len() ==> exact_within(#[trigger] items[i], depth) {
        assert(forall|i: int|
            0 <= i < items.len() ==> exact_within(#[trigger] items[i], (more - 1) as nat));
        assert(exact_within(array, more));
    }
    if forall|name: Seq<char>| #[trigger]
        members.contains_key(name) ==> exact_within(members[name], depth) {
        assert(forall|name: Seq<char>| #[trigger]
            members.contains_key(name) ==> exact_within(members[name], (more - 1) as nat));
        assert(exact_within(object, more));
    }
}

/// The model of a parse result holds what the result holds.
pub proof fn law_parse_results_are_modelled_whole(value: Value, error: String)
    ensures
        parse_view(Ok(value)) == Ok::<Json, Seq<char>>(json_of(value)),
        parse_view(Err(error)) == Err::<Json, Seq<char>>(error@),
{
}

} // verus!
