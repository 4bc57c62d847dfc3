use vstd::prelude::*;

use crate::envelope::{
    decoded, envelope_json, lemma_encode_of_decode, DecodeError, Message, MessageView,
};
use crate::json::{Json, JsonView};

verus! {

#[verifier::external_type_specification]
#[verifier::external_body]
pub struct ExValue(serde_json::Value);

/// The document that serde_json reads from a text, `None` where the text is
/// not exactly one JSON document.
pub uninterp spec fn parsed(text: Seq<char>) -> Option<JsonView>;

/// The compact JSON text that serde_json writes for a document.
pub uninterp spec fn rendered(doc: JsonView) -> Seq<char>;

/// Relies on serde_json::from_str::<serde_json::Value>: it reads one JSON
/// document or fails, and what it reads depends on the text alone.
#[verifier::external_body]
fn parse_json(text: &str) -> (r: Option<Json>)
    ensures
        match r {
            Some(j) => parsed(text@) == Some(j@),
            None => parsed(text@) is None,
        },
{
    match serde_json::from_str::<serde_json::Value>(text) {
        Ok(v) => Some(json_from_value(&v)),
        Err(_) => None,
    }
}

/// Relies on serde_json's `Display` for `serde_json::Value`: compact JSON
/// text that depends on the document alone.
#[verifier::external_body]
fn render_json(doc: &Json) -> (r: String)
    ensures
        r@ == rendered(doc@),
{
    value_from_json(doc).to_string()
}

/// Carries a serde_json value over into a [`Json`], node for node.
#[verifier::external_body]
fn json_from_value(v: &serde_json::Value) -> Json {
    match v {
        serde_json::Value::Null => Json::Null,
        serde_json::Value::Bool(b) => Json::Bool(*b),
        serde_json::Value::Number(n) => Json::Number(n.to_string()),
        serde_json::Value::String(s) => Json::Str(s.clone()),
        serde_json::Value::Array(a) => Json::Array(a.iter().map(json_from_value).collect()),
        serde_json::Value::Object(o) => Json::Object(
            o.iter().map(|(k, x)| (k.clone(), json_from_value(x))).collect(),
        ),
    }
}

/// Carries a [`Json`] over into a serde_json value, node for node.
#[verifier::external_body]
fn value_from_json(j: &Json) -> serde_json::Value {
    match j {
        Json::Null => serde_json::Value::Null,
        Json::Bool(b) => serde_json::Value::Bool(*b),
        Json::Number(n) => n.parse().map(serde_json::Value::Number).unwrap_or(serde_json::Value::Null),
        Json::Str(s) => serde_json::Value::String(s.clone()),
        Json::Array(a) => serde_json::Value::Array(a.iter().map(value_from_json).collect()),
        Json::Object(o) => serde_json::Value::Object(
            o.iter().map(|(k, x)| (k.clone(), value_from_json(x))).collect(),
        ),
    }
}

/// What a frame of text decodes to.
pub open spec fn frame_envelope(text: Seq<char>) -> Result<MessageView, DecodeError> {
    match parsed(text) {
        None => Err(DecodeError::Syntax),
        Some(j) => match decoded(j) {
            Some(m) => Ok(m),
            None => Err(DecodeError::Shape),
        },
    }
}

/// The text of the frame that carries an envelope.
pub open spec fn frame_text(m: MessageView) -> Seq<char> {
    rendered(envelope_json(m))
}

/// A frame that decodes is written back as the text of the document of the
/// same envelope, and that document keeps every field value the envelope was
/// read from in the frame's own document.
pub proof fn lemma_frame_round_trip(text: Seq<char>)
    requires
        frame_envelope(text) is Ok,
    ensures
        ({
            let m = frame_envelope(text)->Ok_0;
            let doc = parsed(text)->Some_0;
            &&& parsed(text) is Some
            &&& decoded(doc) == Some(m)
            &&& frame_text(m) == rendered(envelope_json(m))
            &&& decoded(envelope_json(m)) == decoded(doc)
        }),
{
    lemma_encode_of_decode(parsed(text)->Some_0);
}

/// Reads one frame of text as an envelope, wholly or not at all.
pub fn decode(text: &str) -> (r: Result<Message, DecodeError>)
    ensures
        match r {
            Ok(m) => frame_envelope(text@) == Ok::<MessageView, DecodeError>(m@),
            Err(e) => frame_envelope(text@) == Err::<MessageView, DecodeError>(e),
        },
{
    match parse_json(text) {
        None => Err(DecodeError::Syntax),
        Some(j) => Message::from_json(&j),
    }
}

/// Writes an envelope as the text of one frame.
pub fn encode(m: &Message) -> (r: String)
    ensures
        r@ == frame_text(m@),
{
    render_json(&m.to_json())
}

} // verus!
