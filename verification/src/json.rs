use vstd::prelude::*;

verus! {

#[verifier::external_type_specification]
#[verifier::external_body]
pub struct ExJsonValue(serde_json::Value);

/// What a place in a JSON document holds, as far as this library reads it.
pub enum JsonLeaf {
    /// A string.
    Text(Seq<char>),
    /// An integer of the range of `u64`.
    Unsigned(u64),
    /// Anything else: null, a boolean, another number, an array, an object.
    Other,
}

/// The document that a byte string spells, or `None` where the bytes are not
/// one JSON value.
pub uninterp spec fn parsed_json(bytes: Seq<u8>) -> Option<serde_json::Value>;

/// What a document holds, by JSON Pointer: the empty pointer names the
/// document, `/a/b` the member `b` of its member `a`. A pointer that names
/// nothing is not in the map.
pub uninterp spec fn json_leaves(doc: serde_json::Value) -> Map<Seq<char>, JsonLeaf>;

/// The elements of the array that a pointer names, in order; `None` where the
/// pointer names no array.
pub uninterp spec fn json_items(doc: serde_json::Value, pointer: Seq<char>) -> Option<
    Seq<serde_json::Value>,
>;

/// The string that a pointer names, if it names one.
pub open spec fn json_text_at(doc: serde_json::Value, pointer: Seq<char>) -> Option<Seq<char>> {
    if json_leaves(doc).contains_key(pointer) {
        match json_leaves(doc)[pointer] {
            JsonLeaf::Text(s) => Some(s),
            _ => None,
        }
    } else {
        None
    }
}

/// The unsigned integer that a pointer names, if it names one.
pub open spec fn json_unsigned_at(doc: serde_json::Value, pointer: Seq<char>) -> Option<u64> {
    if json_leaves(doc).contains_key(pointer) {
        match json_leaves(doc)[pointer] {
            JsonLeaf::Unsigned(n) => Some(n),
            _ => None,
        }
    } else {
        None
    }
}

/// `serde_json::from_slice`, read as a `Value`: the document that the bytes
/// spell, or `None` where the call reports an error.
#[verifier::external_body]
pub(crate) fn json_parse(bytes: &[u8]) -> (r: Option<serde_json::Value>)
    ensures
        r == parsed_json(bytes@),
{
    serde_json::from_slice::<serde_json::Value>(bytes).ok()
}

/// `Value::pointer` followed by `Value::as_str`: the string at a pointer.
#[verifier::external_body]
pub(crate) fn json_text(doc: &serde_json::Value, pointer: &str) -> (r: Option<String>)
    ensures
        r is Some <==> (json_leaves(*doc).contains_key(pointer@) && json_leaves(*doc)[pointer@] is Text),
        r is Some ==> json_leaves(*doc)[pointer@] == JsonLeaf::Text(r->Some_0@),
{
    doc.pointer(pointer).and_then(|v| v.as_str()).map(|s| s.to_owned())
}

/// `Value::pointer` followed by `Value::as_u64`: the unsigned integer at a
/// pointer.
#[verifier::external_body]
pub(crate) fn json_unsigned(doc: &serde_json::Value, pointer: &str) -> (r: Option<u64>)
    ensures
        r is Some <==> (json_leaves(*doc).contains_key(pointer@) && json_leaves(*doc)[pointer@] is Unsigned),
        r is Some ==> json_leaves(*doc)[pointer@] == JsonLeaf::Unsigned(r->Some_0),
{
    doc.pointer(pointer).and_then(|v| v.as_u64())
}

/// `Value::pointer` followed by `Value::as_array` and `Vec::len`: the number
/// of elements of the array at a pointer.
#[verifier::external_body]
pub(crate) fn json_len(doc: &serde_json::Value, pointer: &str) -> (r: Option<usize>)
    ensures
        r is Some <==> json_items(*doc, pointer@) is Some,
        r is Some ==> r->Some_0 == json_items(*doc, pointer@)->Some_0.len(),
{
    doc.pointer(pointer).and_then(|v| v.as_array()).map(|a| a.len())
}

/// `Value::pointer` followed by `Value::get` with an index: one element of
/// the array at a pointer.
#[verifier::external_body]
pub(crate) fn json_item<'a>(doc: &'a serde_json::Value, pointer: &str, index: usize) -> (r: Option<
    &'a serde_json::Value,
>)
    ensures
        r is Some <==> (json_items(*doc, pointer@) is Some && index < json_items(*doc, pointer@)->Some_0.len()),
        r is Some ==> *r->Some_0 == json_items(*doc, pointer@)->Some_0[index as int],
{
    doc.pointer(pointer).and_then(|v| v.as_array()).and_then(|a| a.get(index))
}

} // verus!
