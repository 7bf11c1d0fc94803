//! JSON and base64 decoding of transport payloads. The parsing itself is done
//! by `serde_json` and `base64`; what those crates return is named here, and
//! the rules built on top of it are verified.

use base64::Engine;
use vstd::prelude::*;

verus! {

/// `serde_json::Value`, a parsed JSON document; opaque here.
#[verifier::external_type_specification]
#[verifier::external_body]
pub struct ExJsonValue(serde_json::Value);

/// `serde_json::Error`, why a text is no JSON document; opaque here.
#[verifier::external_type_specification]
#[verifier::external_body]
pub struct ExJsonError(serde_json::Error);

/// `base64::DecodeError`, why a text is no base64; opaque here.
#[verifier::external_type_specification]
#[verifier::external_body]
pub struct ExBase64DecodeError(base64::DecodeError);

/// What `serde_json::from_slice` reads from `text`: `None` where it reports
/// an error, else the text members of the document (see `json_strings`).
pub uninterp spec fn json_parsed(text: Seq<u8>) -> Option<Map<Seq<char>, Seq<char>>>;

/// The text members of a JSON value: for an object, its members whose value
/// is a string, by name; for every other value, none.
pub uninterp spec fn json_strings(value: serde_json::Value) -> Map<Seq<char>, Seq<char>>;

/// The text of a JSON value: the contents where the value is a string,
/// `None` otherwise.
pub uninterp spec fn json_text(value: serde_json::Value) -> Option<Seq<char>>;

/// The bytes that the standard base64 engine (standard alphabet, canonical
/// padding) decodes from `text`, or `None` where it reports an error.
pub uninterp spec fn base64_decoded(text: Seq<char>) -> Option<Seq<u8>>;

/// The text that the standard base64 engine encodes `data` to.
pub uninterp spec fn base64_encoded(data: Seq<u8>) -> Seq<char>;

/// Calls `serde_json::from_slice` for a `serde_json::Value`. Trusted: whether
/// it succeeds, and the text members of the document it returns, depend on
/// the bytes alone, and are what `json_parsed` names.
#[verifier::external_body]
fn parse_json(text: &[u8]) -> (parsed: Result<serde_json::Value, serde_json::Error>)
    ensures
        json_parsed(text@) == (match parsed {
            Ok(document) => Some(json_strings(document)),
            Err(_) => None,
        }),
{
    serde_json::from_slice::<serde_json::Value>(text)
}

/// Calls `serde_json::Value::get` with a string index, which looks the key
/// up among the members of an object and finds nothing in any other value.
/// Trusted: it finds nothing only where the value has no text member of
/// that name, and what it finds is text exactly where the value has a text
/// member of that name, with that text.
#[verifier::external_body]
fn member<'a>(value: &'a serde_json::Value, key: &str) -> (found: Option<&'a serde_json::Value>)
    ensures
        match found {
            Some(field) => json_text(*field) == (if json_strings(*value).contains_key(key@) {
                Some(json_strings(*value)[key@])
            } else {
                None
            }),
            None => !json_strings(*value).contains_key(key@),
        },
{
    value.get(key)
}

/// Calls `serde_json::Value::as_str`. Trusted: it returns the contents of a
/// JSON string and `None` for every other value, which is what `json_text`
/// names.
#[verifier::external_body]
fn text_of<'a>(value: &'a serde_json::Value) -> (text: Option<&'a str>)
    ensures
        json_text(*value) == (match text {
            Some(contents) => Some(contents@),
            None => None,
        }),
{
    value.as_str()
}

/// Calls `Engine::decode` on `base64::prelude::BASE64_STANDARD`. Trusted: the
/// outcome depends on the text alone, and is the one that `base64_decoded`
/// names.
#[verifier::external_body]
fn decode_base64(text: &str) -> (decoded: Result<Vec<u8>, base64::DecodeError>)
    ensures
        base64_decoded(text@) == (match decoded {
            Ok(bytes) => Some(bytes@),
            Err(_) => None,
        }),
{
    base64::prelude::BASE64_STANDARD.decode(text)
}

/// Calls `Engine::encode` on `base64::prelude::BASE64_STANDARD`. Trusted: the
/// text depends on the bytes alone, and is the one that `base64_encoded`
/// names. The engine panics where the encoded length overflows `usize`, which
/// no input within the bound can cause.
#[verifier::external_body]
fn encode_base64(data: &[u8]) -> (text: String)
    requires
        data@.len() <= isize::MAX,
    ensures
        text@ == base64_encoded(data@),
{
    base64::prelude::BASE64_STANDARD.encode(data)
}

/// Why a client payload could not be read as the structured format that the
/// relay expects.
#[derive(Clone, Copy, Debug, PartialEq, Eq, Structural)]
pub enum MalformedPayload {
    /// The payload is not a JSON document.
    NotJson,
    /// The document has no member `image` that is a string.
    NoImage,
    /// The `image` member is not base64 text.
    BadBase64,
}

/// Whether `body` is a JSON document.
pub open spec fn is_json_document(body: Seq<u8>) -> bool {
    json_parsed(body).is_some()
}

/// The screenshot that a client request body carries: the base64 text under
/// the member `image` of the JSON document, decoded.
pub open spec fn image_in_body(body: Seq<u8>) -> Result<Seq<u8>, MalformedPayload> {
    match json_parsed(body) {
        None => Err(MalformedPayload::NotJson),
        Some(strings) => if strings.contains_key("image"@) {
            image_in_text(strings["image"@])
        } else {
            Err(MalformedPayload::NoImage)
        },
    }
}

/// The bytes that base64 text stands for.
pub open spec fn image_in_text(text: Seq<char>) -> Result<Seq<u8>, MalformedPayload> {
    match base64_decoded(text) {
        None => Err(MalformedPayload::BadBase64),
        Some(bytes) => Ok(bytes),
    }
}

/// Whether two results over byte strings agree: the same error, or the same
/// bytes.
pub open spec fn same_bytes(
    got: Result<Vec<u8>, MalformedPayload>,
    expected: Result<Seq<u8>, MalformedPayload>,
) -> bool {
    match got {
        Ok(bytes) => expected == Ok::<Seq<u8>, MalformedPayload>(bytes@),
        Err(reason) => expected == Err::<Seq<u8>, MalformedPayload>(reason),
    }
}

/// Tells whether `body` parses as JSON.
pub fn is_json(body: &[u8]) -> (valid: bool)
    ensures
        valid == is_json_document(body@),
{
    match parse_json(body) {
        Ok(_) => true,
        Err(_) => false,
    }
}

/// Decodes base64 text into the bytes it stands for.
pub fn decode_bytes(text: &str) -> (image: Result<Vec<u8>, MalformedPayload>)
    ensures
        same_bytes(image, image_in_text(text@)),
{
    match decode_base64(text) {
        Ok(bytes) => Ok(bytes),
        Err(_) => Err(MalformedPayload::BadBase64),
    }
}

/// Encodes bytes as base64 text.
pub fn encode_bytes(data: &[u8]) -> (text: String)
    requires
        data@.len() <= isize::MAX,
    ensures
        text@ == base64_encoded(data@),
{
    encode_base64(data)
}

/// Extracts the screenshot from a client request body.
pub fn embedded_image(body: &[u8]) -> (image: Result<Vec<u8>, MalformedPayload>)
    ensures
        same_bytes(image, image_in_body(body@)),
{
    match parse_json(body) {
        Err(_) => Err(MalformedPayload::NotJson),
        Ok(document) => match member(&document, "image") {
            None => Err(MalformedPayload::NoImage),
            Some(field) => match text_of(field) {
                None => Err(MalformedPayload::NoImage),
                Some(text) => decode_bytes(text),
            },
        },
    }
}

} // verus!
