//! JSON documents, and the two envelopes that travel to and from a backend.
//!
//! A document is a `serde_json::Value`. It is carried as it is; what it holds
//! is read through the functions of `serde_json`, each behind a contract that
//! names its result.
use vstd::prelude::*;
use crate::Input;
use crate::OpaClientError;
use crate::Output;

verus! {

/// A JSON value.
#[verifier::external_type_specification]
#[verifier::external_body]
pub struct ExValue(serde_json::Value);

/// The value that a text stands for, where the text is JSON.
pub uninterp spec fn json_parse(text: Seq<char>) -> Option<serde_json::Value>;

/// The compact text of a value.
pub uninterp spec fn json_text(value: serde_json::Value) -> Seq<char>;

/// Whether a value is an object.
pub uninterp spec fn json_is_object(value: serde_json::Value) -> bool;

/// Whether a value is `null`.
pub uninterp spec fn json_is_null(value: serde_json::Value) -> bool;

/// The member of an object under a key. `None` where the value is no object
/// or has no such member.
pub uninterp spec fn json_member(value: serde_json::Value, key: Seq<char>) -> Option<
    serde_json::Value,
>;

/// The elements of an array, in order. `None` where the value is no array.
pub uninterp spec fn json_elements(value: serde_json::Value) -> Option<Seq<serde_json::Value>>;

/// `serde_json::from_str` at `Value`: the value is a function of the text
/// alone, and an error is returned exactly when the text is not JSON.
#[verifier::external_body]
pub(crate) fn parse(text: &str) -> (r: Result<serde_json::Value, serde_json::Error>)
    ensures
        r is Ok <==> json_parse(text@) is Some,
        r is Ok ==> r->Ok_0 == json_parse(text@)->Some_0,
{
    serde_json::from_str::<serde_json::Value>(text)
}

/// `Value::to_string`, which writes the value as compact JSON: the text is a
/// function of the value alone.
#[verifier::external_body]
pub(crate) fn text(value: &serde_json::Value) -> (r: String)
    ensures
        r@ == json_text(*value),
{
    value.to_string()
}

/// `Value::is_object`.
#[verifier::external_body]
pub(crate) fn is_object(value: &serde_json::Value) -> (r: bool)
    ensures
        r == json_is_object(*value),
{
    value.is_object()
}

/// `Value::is_null`.
#[verifier::external_body]
pub(crate) fn is_null(value: &serde_json::Value) -> (r: bool)
    ensures
        r == json_is_null(*value),
{
    value.is_null()
}

/// `Value::get` with a key, and a copy of what it finds.
#[verifier::external_body]
pub(crate) fn member(value: &serde_json::Value, key: &str) -> (r: Option<serde_json::Value>)
    ensures
        r == json_member(*value, key@),
{
    value.get(key).cloned()
}

/// `Value::as_array`, and a copy of what it finds.
#[verifier::external_body]
pub(crate) fn elements(value: &serde_json::Value) -> (r: Option<Vec<serde_json::Value>>)
    ensures
        r is Some <==> json_elements(*value) is Some,
        r is Some ==> r->Some_0@ == json_elements(*value)->Some_0,
{
    value.as_array().cloned()
}

/// The document that a text stands for, or `JsonError` where it is not JSON.
pub open spec fn document(text: Seq<char>) -> Result<serde_json::Value, OpaClientError> {
    match json_parse(text) {
        Some(value) => Ok(value),
        None => Err(OpaClientError::JsonError),
    }
}

/// Reads a document from its text.
pub fn parse_document(text: &str) -> (r: Result<serde_json::Value, OpaClientError>)
    ensures
        r == document(text@),
{
    match parse(text) {
        Ok(value) => Ok(value),
        Err(e) => Err(OpaClientError::from(e)),
    }
}

/// The wire form of a request: the text of the input framed as the only
/// member of an object, under the key `input`.
pub open spec fn request_envelope(input: Seq<char>) -> Seq<char> {
    "{\"input\":"@ + input + "}"@
}

/// Frames the text of an input document for the wire.
pub fn frame(input: &str) -> (r: String)
    ensures
        r@ == request_envelope(input@),
{
    let mut body = "{\"input\":".to_owned();
    body.append(input);
    body.append("}");
    body
}

/// The text between the frame of a request's wire form.
pub open spec fn envelope_input(wire: Seq<char>) -> Seq<char> {
    wire.subrange("{\"input\":"@.len() as int, wire.len() - "}"@.len())
}

/// Framing loses nothing: the text of the input can be read back out of the
/// wire form, whatever it is.
pub proof fn lemma_envelope_keeps_input(input: Seq<char>)
    ensures
        envelope_input(request_envelope(input)) == input,
{
    let head = "{\"input\":"@;
    let wire = request_envelope(input);
    assert(wire.len() == head.len() + input.len() + "}"@.len());
    assert(envelope_input(wire) =~= input);
}

impl<'a> Input<&'a serde_json::Value> {
    /// The wire form of this request.
    pub fn wire_text(&self) -> (r: String)
        ensures
            r@ == request_envelope(json_text(*self.input)),
    {
        let inner = text(self.input);
        frame(inner.as_str())
    }
}

/// What a reply's body says: `None` where it is no object; else the member
/// `result`, taken as missing where it is `null`.
pub open spec fn reply_envelope(body: serde_json::Value) -> Option<Output<serde_json::Value>> {
    if json_is_object(body) {
        Some(
            Output {
                result: match json_member(body, "result"@) {
                    Some(decision) => if json_is_null(decision) {
                        None
                    } else {
                        Some(decision)
                    },
                    None => None,
                },
            },
        )
    } else {
        None
    }
}

/// What the text of a reply's body says: `None` where it is not JSON.
pub open spec fn reply_of_text(body: Seq<char>) -> Option<Output<serde_json::Value>> {
    match json_parse(body) {
        Some(value) => reply_envelope(value),
        None => None,
    }
}

impl Output<serde_json::Value> {
    /// Reads the reply envelope out of a body.
    pub fn from_value(body: &serde_json::Value) -> (r: Option<Self>)
        ensures
            r == reply_envelope(*body),
    {
        if is_object(body) {
            let result = match member(body, "result") {
                Some(decision) => if is_null(&decision) {
                    None
                } else {
                    Some(decision)
                },
                None => None,
            };
            Some(Output { result })
        } else {
            None
        }
    }

    /// Reads the reply envelope out of the text of a body.
    pub fn from_wire(body: &str) -> (r: Option<Self>)
        ensures
            r == reply_of_text(body@),
    {
        match parse(body) {
            Ok(value) => Output::from_value(&value),
            Err(_) => None,
        }
    }
}

} // verus!
