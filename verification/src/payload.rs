use vstd::prelude::*;
use vstd::string::*;

verus! {

/// `serde_json::Value`, carried through as an opaque value.
#[verifier::external_type_specification]
#[verifier::external_body]
pub struct ExValue(serde_json::Value);

/// `serde_json::Map`, the object that a request body is. Its contents are
/// spoken of through [`object_fields`].
#[verifier::external_type_specification]
#[verifier::external_body]
#[verifier::reject_recursive_types(K)]
#[verifier::reject_recursive_types(V)]
pub struct ExMap<K, V>(serde_json::Map<K, V>);

/// `serde_json::Error`, carried through as an opaque value.
#[verifier::external_type_specification]
#[verifier::external_body]
pub struct ExError(serde_json::Error);

/// A value that a field of a request body can take.
#[derive(Debug)]
pub enum Json {
    Bool(bool),
    Number(i32),
    Text(String),
}

/// A field's value as contracts see it.
pub enum JsonView {
    Bool(bool),
    Number(int),
    Text(Seq<char>),
}

impl View for Json {
    type V = JsonView;

    open spec fn view(&self) -> JsonView {
        match self {
            Json::Bool(b) => JsonView::Bool(*b),
            Json::Number(n) => JsonView::Number(*n as int),
            Json::Text(s) => JsonView::Text(s@),
        }
    }
}

/// The fields that a JSON object holds, each name with the value it was given.
pub uninterp spec fn object_fields(object: serde_json::Map<String, serde_json::Value>) -> Map<
    Seq<char>,
    JsonView,
>;

/// The fields of an object that holds none.
pub open spec fn no_fields() -> Map<Seq<char>, JsonView> {
    Map::empty()
}

/// `serde_json::Map::new`: the object without fields.
#[verifier::external_body]
pub(crate) fn empty_object() -> (object: serde_json::Map<String, serde_json::Value>)
    ensures
        object_fields(object) == no_fields(),
{
    serde_json::Map::new()
}

/// `serde_json::Map::insert`: afterwards the object holds `value` under
/// `key`, in place of whatever it held there, and every other field as before.
#[verifier::external_body]
pub(crate) fn set_field(object: &mut serde_json::Map<String, serde_json::Value>, key: &str, value: Json)
    ensures
        object_fields(*final(object)) == object_fields(*old(object)).insert(key@, value@),
{
    let value = match value {
        Json::Bool(b) => serde_json::Value::Bool(b),
        Json::Number(n) => serde_json::Value::from(n),
        Json::Text(s) => serde_json::Value::String(s),
    };
    object.insert(key.to_owned(), value);
}

/// The fields of `fields` and, where `value` is given, `key` with that value.
pub open spec fn with_optional_field(
    fields: Map<Seq<char>, JsonView>,
    key: Seq<char>,
    value: Option<JsonView>,
) -> Map<Seq<char>, JsonView> {
    match value {
        Some(v) => fields.insert(key, v),
        None => fields,
    }
}

} // verus!
