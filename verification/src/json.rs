//! JSON values: what a `serde_json::Value` holds, and the operations on it that the
//! configuration needs.

use vstd::prelude::*;

use crate::jsonc;

verus! {

/// What a JSON value holds. A number is an integer or, for anything else, a float that is
/// told apart by its bits.
pub enum Json {
    Null,
    Bool(bool),
    Int(int),
    Float(u64),
    Text(Seq<char>),
    List(Seq<Json>),
    Object(Map<Seq<char>, Json>),
}

/// Whether a value nests lists and objects at most `depth` deep.
pub open spec fn nests(v: Json, depth: nat) -> bool
    decreases depth,
{
    match v {
        Json::List(items) => depth > 0 && forall|i: int|
            0 <= i < items.len() ==> nests(#[trigger] items[i], (depth - 1) as nat),
        Json::Object(members) => depth > 0 && forall|k: Seq<char>|
            members.contains_key(k) ==> nests(#[trigger] members[k], (depth - 1) as nat),
        _ => true,
    }
}

/// Whether a value nests at most `depth` deep and holds no float.
pub open spec fn exact(v: Json, depth: nat) -> bool
    decreases depth,
{
    match v {
        Json::Float(_) => false,
        Json::List(items) => depth > 0 && forall|i: int|
            0 <= i < items.len() ==> exact(#[trigger] items[i], (depth - 1) as nat),
        Json::Object(members) => depth > 0 && forall|k: Seq<char>|
            members.contains_key(k) ==> exact(#[trigger] members[k], (depth - 1) as nat),
        _ => true,
    }
}

/// The depth of nesting that the parser accepts.
pub open spec fn max_depth() -> nat {
    127
}

/// `serde_json::Value`, a JSON value.
#[verifier::external_type_specification]
#[verifier::external_body]
pub struct ExValue(serde_json::Value);

/// What a `serde_json::Value` holds.
pub uninterp spec fn json_of(v: serde_json::Value) -> Json;

/// What the parser makes of a text; `None` where the text is no JSON.
pub uninterp spec fn json_text(t: Seq<char>) -> Option<Json>;

/// `serde_json::from_str` for a `Value`. A text that is not JSON, or that nests too deep, is
/// refused.
#[verifier::external_body]
pub(crate) fn parse(text: &str) -> (r: Option<serde_json::Value>)
    ensures
        json_text(text@) == (match r {
            Some(v) => Some(json_of(v)),
            None => None::<Json>,
        }),
        r matches Some(v) ==> nests(json_of(v), max_depth()),
{
    serde_json::from_str::<serde_json::Value>(text).ok()
}

/// `Value::get` with a member's name: the member of that name, where the value is an object
/// that has one.
#[verifier::external_body]
pub(crate) fn get<'a>(v: &'a serde_json::Value, key: &str) -> (r: Option<&'a serde_json::Value>)
    ensures
        r is Some <==> (json_of(*v) matches Json::Object(m) && m.contains_key(key@)),
        r matches Some(x) ==> json_of(*x) == json_of(*v)->Object_0[key@],
{
    v.get(key)
}

/// `Value::as_str`: the text of a value that is a string.
#[verifier::external_body]
pub(crate) fn as_str<'a>(v: &'a serde_json::Value) -> (r: Option<&'a str>)
    ensures
        r is Some <==> json_of(*v) is Text,
        r matches Some(s) ==> json_of(*v) == Json::Text(s@),
{
    v.as_str()
}

/// `Value::as_u64`: the number of a value that is an integer between 0 and `u64::MAX`.
#[verifier::external_body]
pub(crate) fn as_u64(v: &serde_json::Value) -> (r: Option<u64>)
    ensures
        r is Some <==> (json_of(*v) matches Json::Int(n) && 0 <= n <= u64::MAX),
        r matches Some(n) ==> json_of(*v) == Json::Int(n as int),
{
    v.as_u64()
}

/// `Value::as_bool`: the truth value of a value that is one.
#[verifier::external_body]
pub(crate) fn as_bool(v: &serde_json::Value) -> (r: Option<bool>)
    ensures
        r is Some <==> json_of(*v) is Bool,
        r matches Some(b) ==> json_of(*v) == Json::Bool(b),
{
    v.as_bool()
}

/// What the values of a list hold.
pub open spec fn items_of(list: Seq<serde_json::Value>) -> Seq<Json> {
    list.map_values(|v: serde_json::Value| json_of(v))
}

/// `Value::as_array`: the items of a value that is a list.
#[verifier::external_body]
pub(crate) fn as_array<'a>(v: &'a serde_json::Value) -> (r: Option<&'a Vec<serde_json::Value>>)
    ensures
        r is Some <==> json_of(*v) is List,
        r matches Some(items) ==> json_of(*v) == Json::List(items_of(items@)),
{
    v.as_array()
}

/// `Value::is_object`: whether the value is an object.
#[verifier::external_body]
pub(crate) fn is_object(v: &serde_json::Value) -> (r: bool)
    ensures
        r == (json_of(*v) is Object),
{
    v.is_object()
}

/// `Map::new` as a value: an object without members.
#[verifier::external_body]
pub(crate) fn empty_object() -> (r: serde_json::Value)
    ensures
        json_of(r) == Json::Object(Map::<Seq<char>, Json>::empty()),
{
    serde_json::Value::Object(serde_json::Map::new())
}

/// `Value::String`: a text as a value.
#[verifier::external_body]
pub(crate) fn text_value(s: String) -> (r: serde_json::Value)
    ensures
        json_of(r) == Json::Text(s@),
{
    serde_json::Value::String(s)
}

/// `Value::from` on a `u64`: a number as a value.
#[verifier::external_body]
pub(crate) fn number_value(n: u64) -> (r: serde_json::Value)
    ensures
        json_of(r) == Json::Int(n as int),
{
    serde_json::Value::from(n)
}

/// `Value::Array`: a list of values as a value.
#[verifier::external_body]
pub(crate) fn list_value(items: Vec<serde_json::Value>) -> (r: serde_json::Value)
    ensures
        json_of(r) == Json::List(items_of(items@)),
{
    serde_json::Value::Array(items)
}

/// `Map::insert` on the members of an object: the member of that name is added or replaced.
#[verifier::external_body]
pub(crate) fn insert(v: &mut serde_json::Value, key: &str, x: serde_json::Value)
    requires
        json_of(*old(v)) is Object,
    ensures
        json_of(*final(v)) == Json::Object(json_of(*old(v))->Object_0.insert(key@, json_of(x))),
{
    if let Some(members) = v.as_object_mut() {
        members.insert(key.to_string(), x);
    }
}

/// `Map::remove` on the members of an object: the member of that name is taken out.
#[verifier::external_body]
pub(crate) fn remove(v: &mut serde_json::Value, key: &str)
    requires
        json_of(*old(v)) is Object,
    ensures
        json_of(*final(v)) == Json::Object(json_of(*old(v))->Object_0.remove(key@)),
{
    if let Some(members) = v.as_object_mut() {
        members.remove(key);
    }
}

/// The text that the pretty printer makes of a value.
pub uninterp spec fn json_pretty(v: Json) -> Seq<char>;

/// Whether a text, read back, gives the object `members` again: the same names, and the same
/// value wherever a member holds no float. (A float may come back changed in its last digit.)
pub open spec fn reads_back(t: Seq<char>, members: Map<Seq<char>, Json>) -> bool {
    &&& json_text(t) matches Some(Json::Object(m))
    &&& m.dom() == members.dom()
    &&& forall|k: Seq<char>|
        members.contains_key(k) && exact(members[k], (max_depth() - 1) as nat)
            ==> #[trigger] m[k] == members[k]
}

/// `serde_json::to_string_pretty` for a `Value`, which always can be printed. The text begins
/// with no byte order mark and has no slash outside its string literals, and an object that does
/// not nest too deep is read back from it.
#[verifier::external_body]
pub(crate) fn pretty(v: &serde_json::Value) -> (r: Option<String>)
    ensures
        r is Some,
        r->0@ == json_pretty(json_of(*v)),
        jsonc::without_bom(r->0@) == r->0@,
        jsonc::stripped(r->0@) == r->0@,
        json_of(*v) is Object && nests(json_of(*v), max_depth()) ==> reads_back(
            r->0@,
            json_of(*v)->Object_0,
        ),
{
    serde_json::to_string_pretty(v).ok()
}

} // verus!
