//! Structured records: a JSON object as a list of named attributes, read and
//! written by `serde_json`.

use crate::error::{TransformError, TransformErrorView};
use vstd::prelude::*;

verus! {

/// A JSON value as `serde_json` holds it. Nothing here looks inside one; it is
/// carried from the decoded document to the encoded one.
#[verifier::external_type_specification]
#[verifier::external_body]
pub struct ExJsonValue(serde_json::Value);

/// The value of one attribute: a text, which may be a date, or any other JSON
/// value, kept as it was decoded.
#[derive(Debug, PartialEq)]
pub enum AttributeValue {
    Text(String),
    Other(serde_json::Value),
}

/// An `AttributeValue` with its text as a sequence of characters.
pub enum AttributeValueView {
    Text(Seq<char>),
    Other(serde_json::Value),
}

impl View for AttributeValue {
    type V = AttributeValueView;

    open spec fn view(&self) -> AttributeValueView {
        match *self {
            AttributeValue::Text(text) => AttributeValueView::Text(text@),
            AttributeValue::Other(other) => AttributeValueView::Other(other),
        }
    }
}

/// One named attribute of a structured record.
#[derive(Debug, PartialEq)]
pub struct Attribute {
    pub name: String,
    pub value: AttributeValue,
}

/// An `Attribute` as mathematical values.
pub struct AttributeView {
    pub name: Seq<char>,
    pub value: AttributeValueView,
}

impl View for Attribute {
    type V = AttributeView;

    open spec fn view(&self) -> AttributeView {
        AttributeView { name: self.name@, value: self.value@ }
    }
}

/// A structured record: the attributes of one JSON object, in the order in
/// which the decoder hands them out.
#[derive(Debug, PartialEq)]
pub struct Document {
    pub attributes: Vec<Attribute>,
}

impl View for Document {
    type V = Seq<AttributeView>;

    open spec fn view(&self) -> Seq<AttributeView> {
        self.attributes@.map_values(|attribute: Attribute| attribute@)
    }
}

/// What `serde_json::from_str` makes of `text` read as a JSON object: its
/// attributes, or the decoder's message where the text is no JSON object.
pub uninterp spec fn decoded_document(text: Seq<char>) -> Result<Seq<AttributeView>, Seq<char>>;

/// What `serde_json::to_string` writes for the JSON object made of
/// `attributes`, or the encoder's message where it fails.
pub uninterp spec fn encoded_document(attributes: Seq<AttributeView>) -> Result<
    Seq<char>,
    Seq<char>,
>;

/// `serde_json::from_str`, reading `text` as a `serde_json::Map`. Each entry
/// of the map becomes one attribute: a JSON string becomes a `Text`, every
/// other value is kept whole. A failure comes back as the decoder's message.
#[verifier::external_body]
fn decode_json_object(text: &str) -> (r: Result<Document, String>)
    ensures
        match r {
            Ok(document) => decoded_document(text@) == Ok::<Seq<AttributeView>, Seq<char>>(
                document@,
            ),
            Err(message) => decoded_document(text@) == Err::<Seq<AttributeView>, Seq<char>>(
                message@,
            ),
        },
{
    let map = serde_json::from_str::<serde_json::Map<String, serde_json::Value>>(text);
    let entries = map.map_err(|error| error.to_string())?.into_iter();
    let attributes = entries.map(
        |(name, value)|
            match value {
                serde_json::Value::String(text) => Attribute { name, value: AttributeValue::Text(text) },
                other => Attribute { name, value: AttributeValue::Other(other) },
            },
    );
    Ok(Document { attributes: attributes.collect() })
}

/// `serde_json::to_string`, writing the attributes as one `serde_json::Map`. A
/// `Text` goes in as a JSON string, every other value as it is. A failure
/// comes back as the encoder's message.
#[verifier::external_body]
fn encode_json_object(document: Document) -> (r: Result<String, String>)
    ensures
        match r {
            Ok(text) => encoded_document(document@) == Ok::<Seq<char>, Seq<char>>(text@),
            Err(message) => encoded_document(document@) == Err::<Seq<char>, Seq<char>>(message@),
        },
{
    let map: serde_json::Map<String, serde_json::Value> = document.attributes.into_iter().map(
        |attribute|
            match attribute.value {
                AttributeValue::Text(text) => (attribute.name, serde_json::Value::String(text)),
                AttributeValue::Other(other) => (attribute.name, other),
            },
    ).collect();
    serde_json::to_string(&map).map_err(|error| error.to_string())
}

/// What decoding `text` gives: the document, or a `SerializationError` with the
/// decoder's message.
pub open spec fn decode_outcome(text: Seq<char>) -> Result<Seq<AttributeView>, TransformErrorView> {
    match decoded_document(text) {
        Ok(attributes) => Ok(attributes),
        Err(message) => Err(TransformErrorView::SerializationError(message)),
    }
}

/// What encoding `attributes` gives: the text, or a `SerializationError` with
/// the encoder's message.
pub open spec fn encode_outcome(attributes: Seq<AttributeView>) -> Result<
    Seq<char>,
    TransformErrorView,
> {
    match encoded_document(attributes) {
        Ok(text) => Ok(text),
        Err(message) => Err(TransformErrorView::SerializationError(message)),
    }
}

impl Document {
    /// Reads a structured record from its JSON text. A text that is no JSON
    /// object is a `SerializationError`.
    pub fn decode(text: &str) -> (r: Result<Document, TransformError>)
        ensures
            match r {
                Ok(document) => decode_outcome(text@) == Ok::<
                    Seq<AttributeView>,
                    TransformErrorView,
                >(document@),
                Err(error) => decode_outcome(text@) == Err::<
                    Seq<AttributeView>,
                    TransformErrorView,
                >(error@),
            },
    {
        match decode_json_object(text) {
            Ok(document) => Ok(document),
            Err(message) => Err(TransformError::SerializationError(message)),
        }
    }

    /// Writes the record as JSON text.
    pub fn encode(self) -> (r: Result<String, TransformError>)
        ensures
            crate::error::text_result_view(r) == encode_outcome(self@),
    {
        match encode_json_object(self) {
            Ok(text) => Ok(text),
            Err(message) => Err(TransformError::SerializationError(message)),
        }
    }
}

} // verus!
