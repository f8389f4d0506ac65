use vstd::prelude::*;

verus! {

#[verifier::external_type_specification]
#[verifier::external_body]
pub struct ExJsonValue(serde_json::Value);

/// The shape of a JSON document, as the contracts of this library speak of
/// it. A number carries no value here: no rule of this library reads one.
pub enum JsonTree {
    Null,
    Bool(bool),
    Number,
    Text(Seq<char>),
    Array(Seq<JsonTree>),
    Object(Map<Seq<char>, JsonTree>),
}

/// The document that a parsed `serde_json::Value` holds.
pub uninterp spec fn json_tree(v: serde_json::Value) -> JsonTree;

/// The document that a string parses to, or `None` when the string is not
/// JSON. Parsing is a function of the string alone.
pub uninterp spec fn json_parsing(s: Seq<char>) -> Option<JsonTree>;

/// Relies on serde_json::from_str building a serde_json::Value: whether a
/// string parses, and the document it parses to, are functions of the string
/// alone.
#[verifier::external_body]
pub fn parse_json(s: &str) -> (r: Option<serde_json::Value>)
    ensures
        (r matches Some(v) ==> json_parsing(s@) == Some(json_tree(v))),
        (r is None ==> json_parsing(s@) is None),
{
    serde_json::from_str(s).ok()
}

/// Relies on serde_json::Value::get with a string key: on an object it
/// returns the member named by the key, on every other value `None`.
#[verifier::external_body]
pub fn json_get<'a>(v: &'a serde_json::Value, key: &str) -> (r: Option<&'a serde_json::Value>)
    ensures
        (json_tree(*v) matches JsonTree::Object(m) ==> (r is Some <==> m.dom().contains(key@))),
        (r matches Some(x) ==> json_tree(*v) is Object && json_tree(*x) == json_tree(
            *v,
        )->Object_0[key@]),
        (!(json_tree(*v) is Object) ==> r is None),
{
    v.get(key)
}

/// Relies on serde_json::Value::get with a numeric index: on an array it
/// returns the element at the index, on every other value `None`.
#[verifier::external_body]
pub fn json_index<'a>(v: &'a serde_json::Value, i: usize) -> (r: Option<&'a serde_json::Value>)
    ensures
        (json_tree(*v) matches JsonTree::Array(items) ==> (r is Some <==> i < items.len())),
        (r matches Some(x) ==> json_tree(*v) is Array && i < json_tree(*v)->Array_0.len()
            && json_tree(*x) == json_tree(*v)->Array_0[i as int]),
        (!(json_tree(*v) is Array) ==> r is None),
{
    v.get(i)
}

/// Relies on serde_json::Value::as_array: `Some` exactly on an array; only
/// the array's length is taken.
#[verifier::external_body]
pub fn json_array_len(v: &serde_json::Value) -> (r: Option<usize>)
    ensures
        (json_tree(*v) matches JsonTree::Array(items) ==> r is Some && r->0 == items.len()),
        (!(json_tree(*v) is Array) ==> r is None),
{
    v.as_array().map(|a| a.len())
}

/// Relies on serde_json::Value::as_str: `Some` exactly on a string, which is
/// handed back owned.
#[verifier::external_body]
pub fn json_str(v: &serde_json::Value) -> (r: Option<String>)
    ensures
        (json_tree(*v) matches JsonTree::Text(s) ==> r is Some && (r->0)@ == s),
        (!(json_tree(*v) is Text) ==> r is None),
{
    v.as_str().map(|s| s.to_string())
}

} // verus!
