//! JSON objects, held by `serde_json`.

use vstd::prelude::*;

verus! {

/// A JSON value of any shape, carried through without being looked into.
#[verifier::external_type_specification]
#[verifier::external_body]
pub struct ExValue(serde_json::Value);

/// The map type behind a JSON object.
#[verifier::external_type_specification]
#[verifier::external_body]
#[verifier::reject_recursive_types(K)]
#[verifier::reject_recursive_types(V)]
pub struct ExMap<K, V>(serde_json::Map<K, V>);

/// Why `serde_json` could not write a value.
#[verifier::external_type_specification]
#[verifier::external_body]
pub struct ExError(serde_json::Error);

/// A value that a field of an object holds.
pub enum Scalar {
    /// A string.
    Text(Seq<char>),
    /// A number.
    Count(u64),
    /// Any other value.
    Other(serde_json::Value),
}

/// The fields of a JSON object.
pub uninterp spec fn fields(object: serde_json::Map<String, serde_json::Value>) -> Map<
    Seq<char>,
    Scalar,
>;

/// The text of a JSON object with these fields, indented, as UTF-8.
pub uninterp spec fn pretty(fields: Map<Seq<char>, Scalar>) -> Seq<u8>;

/// `serde_json::Map::new`: the object without fields.
#[verifier::external_body]
pub(crate) fn empty_object() -> (res: serde_json::Map<String, serde_json::Value>)
    ensures
        fields(res) =~= Map::empty(),
{
    serde_json::Map::new()
}

/// `serde_json::Map::insert` of a string value: sets the field `key`, whether or not it was
/// there, and leaves the others alone.
#[verifier::external_body]
pub(crate) fn set_text(
    object: &mut serde_json::Map<String, serde_json::Value>,
    key: &str,
    value: &str,
)
    ensures
        fields(*final(object)) == fields(*old(object)).insert(key@, Scalar::Text(value@)),
{
    object.insert(key.to_owned(), serde_json::Value::from(value));
}

/// `serde_json::Map::insert` of a number: sets the field `key`, whether or not it was there,
/// and leaves the others alone.
#[verifier::external_body]
pub(crate) fn set_count(
    object: &mut serde_json::Map<String, serde_json::Value>,
    key: &str,
    value: u64,
)
    ensures
        fields(*final(object)) == fields(*old(object)).insert(key@, Scalar::Count(value)),
{
    object.insert(key.to_owned(), serde_json::Value::from(value));
}

/// `serde_json::to_vec_pretty`: the indented text of an object. Its fields determine the text,
/// since the object keeps them sorted by name. Writing it never fails: the keys of an object are
/// strings, and a vector takes whatever is written to it.
#[verifier::external_body]
fn to_vec_pretty(
    object: &serde_json::Map<String, serde_json::Value>,
) -> (res: Result<Vec<u8>, serde_json::Error>)
    ensures
        res is Ok,
        res->Ok_0@ == pretty(fields(*object)),
{
    serde_json::to_vec_pretty(object)
}

/// The indented text of an object.
pub(crate) fn document(object: &serde_json::Map<String, serde_json::Value>) -> (res: Vec<u8>)
    ensures
        res@ == pretty(fields(*object)),
{
    to_vec_pretty(object).unwrap()
}

} // verus!
