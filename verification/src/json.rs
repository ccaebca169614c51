use vstd::prelude::*;

verus! {

/// `serde_json::Value` carries arbitrary JSON through the library; the
/// verified code never looks inside one except through the accessors below.
#[verifier::external_type_specification]
#[verifier::external_body]
pub struct ExValue(serde_json::Value);

#[verifier::external_type_specification]
#[verifier::external_body]
#[verifier::reject_recursive_types(K)]
#[verifier::reject_recursive_types(V)]
pub struct ExMap<K, V>(serde_json::Map<K, V>);

/// Whether the text parses as one JSON object; named here, decided only by
/// serde_json.
pub uninterp spec fn parses_as_object(s: Seq<char>) -> bool;

/// The object the text parses as, when it parses as one; named here, computed
/// only by serde_json.
pub uninterp spec fn obj_of_text(s: Seq<char>) -> serde_json::Map<String, serde_json::Value>;

/// The value an object stores under a key, if any; named here, computed only
/// by serde_json.
pub uninterp spec fn map_get_of(
    m: serde_json::Map<String, serde_json::Value>,
    key: Seq<char>,
) -> Option<serde_json::Value>;

/// The underlying map of a value that is a JSON object, else `None`; named
/// here, computed only by serde_json.
pub uninterp spec fn as_object_of(v: serde_json::Value) -> Option<
    serde_json::Map<String, serde_json::Value>,
>;

/// The elements of a value that is a JSON array, in order, else `None`; named
/// here, computed only by serde_json.
pub uninterp spec fn as_array_of(v: serde_json::Value) -> Option<Seq<serde_json::Value>>;

/// The content of a value that is a JSON string, else `None`; named here,
/// computed only by serde_json.
pub uninterp spec fn as_str_of(v: serde_json::Value) -> Option<Seq<char>>;

/// Relies on serde_json::from_str: parses the text as one JSON object, a
/// function of the text alone; `None` exactly when the text is not a JSON
/// object.
#[verifier::external_body]
pub(crate) fn parse_object(s: &str) -> (r: Option<serde_json::Map<String, serde_json::Value>>)
    ensures
        r is Some <==> parses_as_object(s@),
        r matches Some(m) ==> m == obj_of_text(s@),
{
    match serde_json::from_str::<serde_json::Map<String, serde_json::Value>>(s) {
        Ok(m) => Some(m),
        Err(_) => None,
    }
}

/// Relies on serde_json::Map::get: the value stored under the key, if any, a
/// pure lookup in the map.
#[verifier::external_body]
pub(crate) fn object_get<'a>(
    m: &'a serde_json::Map<String, serde_json::Value>,
    key: &str,
) -> (r: Option<&'a serde_json::Value>)
    ensures
        r is Some <==> map_get_of(*m, key@) is Some,
        r matches Some(v) ==> map_get_of(*m, key@) == Some(*v),
{
    m.get(key)
}

/// Relies on serde_json::Value::as_object: the underlying map when the value
/// is a JSON object, else `None`, a pure function of the value.
#[verifier::external_body]
pub(crate) fn value_as_object<'a>(v: &'a serde_json::Value) -> (r: Option<
    &'a serde_json::Map<String, serde_json::Value>,
>)
    ensures
        r is Some <==> as_object_of(*v) is Some,
        r matches Some(m) ==> as_object_of(*v) == Some(*m),
{
    v.as_object()
}

/// Relies on serde_json::Value::as_array: the underlying vector when the
/// value is a JSON array, else `None`, a pure function of the value.
#[verifier::external_body]
pub(crate) fn value_as_array<'a>(v: &'a serde_json::Value) -> (r: Option<
    &'a Vec<serde_json::Value>,
>)
    ensures
        r is Some <==> as_array_of(*v) is Some,
        r matches Some(a) ==> as_array_of(*v) == Some(a@),
{
    v.as_array()
}

/// Relies on serde_json::Value::as_str: the content when the value is a JSON
/// string, else `None`, a pure function of the value.
#[verifier::external_body]
pub(crate) fn value_as_str(v: &serde_json::Value) -> (r: Option<String>)
    ensures
        r is Some <==> as_str_of(*v) is Some,
        r matches Some(s) ==> as_str_of(*v) == Some(s@),
{
    v.as_str().map(str::to_owned)
}

} // verus!
