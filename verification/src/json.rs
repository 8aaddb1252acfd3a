use vstd::prelude::*;

verus! {

#[verifier::external_type_specification]
#[verifier::external_body]
pub struct ExValue(serde_json::Value);

#[verifier::external_type_specification]
#[verifier::external_body]
pub struct ExJsonError(serde_json::Error);

/// Whether a piece of text is a well-formed JSON document; what
/// `serde_json::from_str` accepts depends on the text alone.
pub uninterp spec fn json_wf(s: Seq<char>) -> bool;

/// The string fields a JSON document value holds: under each key, the
/// content of the string stored there, or None where the document is not an
/// object, the key is absent, or the value under it is not a string.
pub uninterp spec fn doc_str_fields(v: serde_json::Value) -> Map<Seq<char>, Option<Seq<char>>>;

/// The string fields of the document a piece of text parses into; what
/// `serde_json::from_str` yields depends on the text alone.
pub uninterp spec fn parsed_str_fields(s: Seq<char>) -> Map<Seq<char>, Option<Seq<char>>>;

/// Relies on serde_json::from_str: it parses the text into a document value,
/// returns Ok exactly when the text is well-formed JSON, and the document it
/// yields is a function of the text.
#[verifier::external_body]
pub(crate) fn parse_json_doc(s: &str) -> (r: Result<serde_json::Value, serde_json::Error>)
    ensures
        r is Ok <==> json_wf(s@),
        r matches Ok(v) ==> doc_str_fields(v) == parsed_str_fields(s@),
{
    serde_json::from_str(s)
}

/// Relies on serde_json::Value::get and Value::as_str: looks a key up in the
/// document and hands back the content of the string stored there, or None
/// where the document is not an object, the key is absent, or the value
/// under it is not a string.
#[verifier::external_body]
pub(crate) fn json_str_field(v: &serde_json::Value, key: &str) -> (r: Option<String>)
    ensures
        (match r {
            Some(s) => Some(s@),
            None => None,
        }) == doc_str_fields(*v)[key@],
{
    v.get(key).and_then(|x| x.as_str()).map(|s| s.to_string())
}

} // verus!
