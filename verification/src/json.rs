//! JSON documents as `serde_json` holds them.
//!
//! The values themselves stay inside `serde_json::Value`, which the verifier
//! cannot look into. Contracts speak of a value through [`json_model`], the
//! tree of plain data that the value stands for. Every function in the first
//! half of this file is a thin call into `serde_json` whose contract is
//! believed, not proved; the second half is verified against those contracts.

use vstd::prelude::*;

verus! {

#[verifier::external_type_specification]
#[verifier::external_body]
pub struct ExValue(serde_json::Value);

#[verifier::external_type_specification]
#[verifier::external_body]
pub struct ExError(serde_json::Error);

/// The data a JSON value stands for. A number is kept as the text that
/// `serde_json` writes for it; an object keeps its members in the order in
/// which its map hands them out.
pub enum JsonModel {
    Null,
    Bool(bool),
    Number(Seq<char>),
    String(Seq<char>),
    Array(Seq<JsonModel>),
    Object(Seq<(Seq<char>, JsonModel)>),
}

/// The data held by a `serde_json::Value`.
pub uninterp spec fn json_model(value: serde_json::Value) -> JsonModel;

/// What `serde_json::from_str` makes of a text: the data of the value it
/// returns, or `None` where it reports an error.
pub uninterp spec fn json_parse(text: Seq<char>) -> Option<JsonModel>;

/// The compact text that `serde_json::to_string` writes for a value holding
/// the given data.
pub uninterp spec fn json_text(model: JsonModel) -> Seq<char>;

/// The value filed under `key` among the members of an object.
pub open spec fn lookup(members: Seq<(Seq<char>, JsonModel)>, key: Seq<char>) -> Option<JsonModel>
    decreases members.len(),
{
    if members.len() == 0 {
        None
    } else if members[0].0 == key {
        Some(members[0].1)
    } else {
        lookup(members.drop_first(), key)
    }
}

/// The member `key` of `model`, if `model` is an object that has one.
pub open spec fn member(model: JsonModel, key: Seq<char>) -> Option<JsonModel> {
    match model {
        JsonModel::Object(members) => lookup(members, key),
        _ => None,
    }
}

/// `items` hold, one for one, the data listed in `models`.
pub open spec fn items_match(items: Seq<serde_json::Value>, models: Seq<JsonModel>) -> bool {
    &&& items.len() == models.len()
    &&& forall|i: int| 0 <= i < items.len() ==> json_model(#[trigger] items[i]) == models[i]
}

/// `pairs` hold, one for one and in the same order, the members listed in
/// `members`.
pub open spec fn members_match(
    pairs: Seq<(&String, &serde_json::Value)>,
    members: Seq<(Seq<char>, JsonModel)>,
) -> bool {
    &&& pairs.len() == members.len()
    &&& forall|i: int|
        0 <= i < pairs.len() ==> (#[trigger] pairs[i]).0@ == members[i].0 && json_model(
            *pairs[i].1,
        ) == members[i].1
}

/// Calls `serde_json::from_str` at type `Value`. Believed: the call succeeds
/// exactly on the texts for which [`json_parse`] has a result, and the value
/// returned then holds that result.
#[verifier::external_body]
pub(crate) fn parse_value(text: &str) -> (r: Result<serde_json::Value, serde_json::Error>)
    ensures
        r is Ok <==> json_parse(text@) is Some,
        r matches Ok(value) ==> json_parse(text@) == Some(json_model(value)),
{
    serde_json::from_str::<serde_json::Value>(text)
}

/// Calls `serde_json::to_string` on a `Value`. Believed: the call succeeds on
/// every value, and the text is [`json_text`] of the data the value holds.
/// The writer fails only where its sink fails or a map key is no string; here
/// it writes into a vector, and the keys of a `Value` are strings.
#[verifier::external_body]
pub(crate) fn value_to_string(value: &serde_json::Value) -> (r: Result<String, serde_json::Error>)
    ensures
        r is Ok,
        r matches Ok(text) ==> text@ == json_text(json_model(*value)),
{
    serde_json::to_string(value)
}

/// Builds `serde_json::Value::String`. Believed: the value holds exactly the
/// given text.
#[verifier::external_body]
pub(crate) fn string_value(text: &str) -> (r: serde_json::Value)
    ensures
        json_model(r) == JsonModel::String(text@),
{
    serde_json::Value::String(text.to_owned())
}

/// Calls `Value::get` with a string key. Believed: the result is the member
/// filed under that key when the value is an object that has it, and `None`
/// for any other value.
#[verifier::external_body]
pub(crate) fn value_get<'a>(value: &'a serde_json::Value, key: &str) -> (r: Option<
    &'a serde_json::Value,
>)
    ensures
        r is Some <==> member(json_model(*value), key@) is Some,
        r matches Some(found) ==> member(json_model(*value), key@) == Some(json_model(*found)),
{
    value.get(key)
}

/// Calls `Value::as_str`. Believed: the result is the text of a string value,
/// and `None` for any other value.
#[verifier::external_body]
pub(crate) fn value_as_str<'a>(value: &'a serde_json::Value) -> (r: Option<&'a str>)
    ensures
        r is Some <==> json_model(*value) is String,
        r matches Some(text) ==> json_model(*value) == JsonModel::String(text@),
{
    value.as_str()
}

/// Calls `Value::as_bool`. Believed: the result is the flag of a boolean
/// value, and `None` for any other value.
#[verifier::external_body]
pub(crate) fn value_as_bool(value: &serde_json::Value) -> (r: Option<bool>)
    ensures
        r is Some <==> json_model(*value) is Bool,
        r matches Some(flag) ==> json_model(*value) == JsonModel::Bool(flag),
{
    value.as_bool()
}

/// Calls `Value::as_array`. Believed: the result is the vector of an array
/// value, whose items hold the listed data one for one, and `None` for any
/// other value.
#[verifier::external_body]
pub(crate) fn value_as_array<'a>(value: &'a serde_json::Value) -> (r: Option<
    &'a Vec<serde_json::Value>,
>)
    ensures
        r is Some <==> json_model(*value) is Array,
        r matches Some(items) ==> items_match(items@, json_model(*value)->Array_0),
{
    value.as_array()
}

/// Calls `Value::as_object` and walks the map with `Map::iter`. Believed: the
/// result lists the members of an object value in the order of the walk, and
/// is `None` for any other value.
#[verifier::external_body]
pub(crate) fn value_members<'a>(value: &'a serde_json::Value) -> (r: Option<
    Vec<(&'a String, &'a serde_json::Value)>,
>)
    ensures
        r is Some <==> json_model(*value) is Object,
        r matches Some(pairs) ==> members_match(pairs@, json_model(*value)->Object_0),
{
    value.as_object().map(|map| map.iter().collect())
}

/// The text of `model`, if `model` is a string.
pub open spec fn as_text(model: JsonModel) -> Option<Seq<char>> {
    match model {
        JsonModel::String(text) => Some(text),
        _ => None,
    }
}

/// The text of the member `key` of `model`, if there is such a member and it
/// is a string.
pub open spec fn text_member(model: JsonModel, key: Seq<char>) -> Option<Seq<char>> {
    match member(model, key) {
        Some(found) => as_text(found),
        None => None,
    }
}

/// The flag of the member `key` of `model`, if there is such a member and it
/// is a boolean.
pub open spec fn flag_member(model: JsonModel, key: Seq<char>) -> Option<bool> {
    match member(model, key) {
        Some(JsonModel::Bool(flag)) => Some(flag),
        _ => None,
    }
}

/// The texts of `models`, if each of them is a string.
pub open spec fn all_texts(models: Seq<JsonModel>) -> Option<Seq<Seq<char>>> {
    if forall|i: int| 0 <= i < models.len() ==> (#[trigger] models[i]) is String {
        Some(Seq::new(models.len(), |i: int| models[i]->String_0))
    } else {
        None
    }
}

/// The texts listed by `model`, if `model` is an array of strings.
pub open spec fn text_list(model: JsonModel) -> Option<Seq<Seq<char>>> {
    match model {
        JsonModel::Array(models) => all_texts(models),
        _ => None,
    }
}

/// Reads the string filed under `key` in an object.
pub fn get_text(value: &serde_json::Value, key: &str) -> (r: Option<String>)
    ensures
        r is Some <==> text_member(json_model(*value), key@) is Some,
        r matches Some(text) ==> text_member(json_model(*value), key@) == Some(text@),
{
    match value_get(value, key) {
        Some(found) => match value_as_str(found) {
            Some(text) => Some(text.to_owned()),
            None => None,
        },
        None => None,
    }
}

/// Reads the boolean filed under `key` in an object.
pub fn get_flag(value: &serde_json::Value, key: &str) -> (r: Option<bool>)
    ensures
        r == flag_member(json_model(*value), key@),
{
    match value_get(value, key) {
        Some(found) => value_as_bool(found),
        None => None,
    }
}

/// Reads an array of strings.
pub fn get_text_list(value: &serde_json::Value) -> (r: Option<Vec<String>>)
    ensures
        r is Some <==> text_list(json_model(*value)) is Some,
        r matches Some(texts) ==> text_list(json_model(*value)) == Some(texts.deep_view()),
{
    let items = match value_as_array(value) {
        Some(items) => items,
        None => { return None; },
    };
    let ghost models = json_model(*value)->Array_0;
    let mut texts: Vec<String> = Vec::new();
    let mut i: usize = 0;
    while i < items.len()
        invariant
            i <= items.len(),
            json_model(*value) == JsonModel::Array(models),
            items_match(items@, models),
            texts.len() == i,
            forall|j: int| 0 <= j < i ==> (#[trigger] models[j]) is String,
            forall|j: int| 0 <= j < i ==> (#[trigger] texts[j])@ == models[j]->String_0,
        decreases items.len() - i,
    {
        match value_as_str(&items[i]) {
            Some(text) => {
                texts.push(text.to_owned());
            },
            None => {
                assert(!(models[i as int] is String));
                return None;
            },
        }
        i += 1;
    }
    assert(texts.deep_view() =~= all_texts(models)->0);
    Some(texts)
}

} // verus!
