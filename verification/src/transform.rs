//! The record transform: one date text, the attributes of a structured
//! record, and the two ways of answering a record that cannot be rewritten.

use crate::config::{ConfigStore, TransformSpec, TransformSpecView};
use crate::datetime::{
    format_utc, formatted_datetime, lemma_offset_round_trip, local_of, parse_local,
    parsed_datetime, to_utc, utc_of, LocalDateTime, UtcDateTime,
};
use crate::document::{
    decode_outcome, encode_outcome, Attribute, AttributeValue, AttributeValueView, AttributeView,
    Document,
};
use crate::error::{text_result_view, TransformError, TransformErrorView};
use vstd::prelude::*;
use vstd::string::*;

verus! {

/// How the value of a record is read.
#[derive(Clone, Copy, Debug, PartialEq, Eq, Structural)]
pub enum Mode {
    /// The whole value is one date text.
    RawText,
    /// The value is a JSON object; the listed attributes carry dates.
    Structured,
}

/// What becomes of a record that cannot be rewritten. The choice holds for the
/// whole record: it fails as a whole or is annotated as a whole.
#[derive(Clone, Copy, Debug, PartialEq, Eq, Structural)]
pub enum FailurePolicy {
    /// The error is returned, and the host decides what to do with the record.
    FailRecord,
    /// The value is replaced by a line that states the error, followed by the
    /// value as it came in.
    Annotate,
}

/// One record as the host hands it over: a key that is passed through, and the
/// value as text.
#[derive(Debug, PartialEq, Eq)]
pub struct Record {
    pub key: Option<Vec<u8>>,
    pub value: String,
}

/// The key of a record as a sequence of bytes.
pub open spec fn key_view(key: Option<Vec<u8>>) -> Option<Seq<u8>> {
    match key {
        Some(bytes) => Some(bytes@),
        None => None,
    }
}

/// The UTC instant of a date text, from what the parser made of the text:
/// a refusal is a `DateParseError` that carries the text and the parser's
/// reason; a reading is moved from the source offset to UTC.
pub open spec fn instant_outcome(
    spec: TransformSpecView,
    input: Seq<char>,
    parsed: Result<LocalDateTime, Seq<char>>,
) -> Result<UtcDateTime, TransformErrorView> {
    match parsed {
        Err(reason) => Err(TransformErrorView::DateParseError { input, reason }),
        Ok(local) => match utc_of(local, spec.offset_seconds()) {
            Some(utc) => Ok(utc),
            None => Err(TransformErrorView::DateFormatError),
        },
    }
}

/// The rewritten text, from what the formatter wrote for the instant.
pub open spec fn written_outcome(formatted: Option<Seq<char>>) -> Result<
    Seq<char>,
    TransformErrorView,
> {
    match formatted {
        Some(text) => Ok(text),
        None => Err(TransformErrorView::DateFormatError),
    }
}

/// What `date_change` returns for `text`: the text is read under the source
/// pattern, moved from the source offset to UTC, and written under the output
/// pattern.
pub open spec fn date_change_outcome(spec: TransformSpecView, text: Seq<char>) -> Result<
    Seq<char>,
    TransformErrorView,
> {
    match instant_outcome(spec, text, parsed_datetime(text, spec.source_format)) {
        Err(error) => Err(error),
        Ok(utc) => written_outcome(formatted_datetime(utc, spec.output_format)),
    }
}

/// The view of a parser's answer.
pub open spec fn parsed_view(parsed: Result<LocalDateTime, String>) -> Result<
    LocalDateTime,
    Seq<char>,
> {
    match parsed {
        Ok(local) => Ok(local),
        Err(reason) => Err(reason@),
    }
}

/// The view of a result whose value is an instant.
pub open spec fn instant_result_view(r: Result<UtcDateTime, TransformError>) -> Result<
    UtcDateTime,
    TransformErrorView,
> {
    match r {
        Ok(utc) => Ok(utc),
        Err(error) => Err(error@),
    }
}

/// Turns the parser's answer for `input` into the UTC instant that the text
/// names, or into the error that the record fails with.
pub fn canonical_instant(
    spec: &TransformSpec,
    input: &str,
    parsed: Result<LocalDateTime, String>,
) -> (r: Result<UtcDateTime, TransformError>)
    requires
        spec.well_formed(),
    ensures
        instant_result_view(r) == instant_outcome(spec@, input@, parsed_view(parsed)),
{
    match parsed {
        Err(reason) => Err(TransformError::DateParseError { input: String::from_str(input), reason }),
        Ok(local) => match to_utc(local, spec.offset_seconds()) {
            Some(utc) => Ok(utc),
            None => Err(TransformError::DateFormatError),
        },
    }
}

/// Turns the formatter's answer into the rewritten text, or into a
/// `DateFormatError` where the formatter wrote nothing.
pub fn written_text(formatted: Option<String>) -> (r: Result<String, TransformError>)
    ensures
        text_result_view(r) == written_outcome(
            match formatted {
                Some(text) => Some(text@),
                None => None,
            },
        ),
{
    match formatted {
        Some(text) => Ok(text),
        None => Err(TransformError::DateFormatError),
    }
}

/// Rewrites one date text: reads it under the source pattern, attaches the
/// source offset, converts to UTC and writes it under the output pattern.
pub fn date_change(spec: &TransformSpec, date_str: &str) -> (r: Result<String, TransformError>)
    requires
        spec.well_formed(),
    ensures
        text_result_view(r) == date_change_outcome(spec@, date_str@),
{
    let parsed: Result<LocalDateTime, String> = parse_local(date_str, spec.source_format.as_str());
    match canonical_instant(spec, date_str, parsed) {
        Err(error) => Err(error),
        Ok(utc) => written_text(format_utc(utc, spec.output_format.as_str())),
    }
}

/// One attribute after the transform. A text under a listed name is rewritten
/// as `date_change` rewrites it; every other attribute stays as it is.
pub open spec fn rewritten_attribute(spec: TransformSpecView, attribute: AttributeView) -> Result<
    AttributeView,
    TransformErrorView,
> {
    match attribute.value {
        AttributeValueView::Text(text) => if spec.lists(attribute.name) {
            match date_change_outcome(spec, text) {
                Ok(out) => Ok(
                    AttributeView { name: attribute.name, value: AttributeValueView::Text(out) },
                ),
                Err(error) => Err(error),
            }
        } else {
            Ok(attribute)
        },
        AttributeValueView::Other(_) => Ok(attribute),
    }
}

/// The attributes of a record after the transform, each rewritten in its
/// place; or the error of the first attribute, in the record's order, that
/// cannot be rewritten.
pub open spec fn rewritten_document(spec: TransformSpecView, attributes: Seq<AttributeView>) -> Result<
    Seq<AttributeView>,
    TransformErrorView,
>
    decreases attributes.len(),
{
    if attributes.len() == 0 {
        Ok(Seq::empty())
    } else {
        match rewritten_document(spec, attributes.drop_last()) {
            Err(error) => Err(error),
            Ok(head) => match rewritten_attribute(spec, attributes.last()) {
                Err(error) => Err(error),
                Ok(attribute) => Ok(head.push(attribute)),
            },
        }
    }
}

/// A failure among the first `k` attributes is the failure of the whole
/// record.
pub proof fn lemma_prefix_failure(spec: TransformSpecView, attributes: Seq<AttributeView>, k: int)
    requires
        0 <= k <= attributes.len(),
        rewritten_document(spec, attributes.take(k)) is Err,
    ensures
        rewritten_document(spec, attributes) == rewritten_document(spec, attributes.take(k)),
    decreases attributes.len(),
{
    if k == attributes.len() {
        assert(attributes.take(k) =~= attributes);
    } else {
        assert(attributes.drop_last().take(k) =~= attributes.take(k));
        lemma_prefix_failure(spec, attributes.drop_last(), k);
    }
}

/// A rewritten record has an attribute for each attribute that came in, at the
/// same place, and each is what `rewritten_attribute` makes of the one that
/// came in.
pub proof fn lemma_rewritten_in_place(
    spec: TransformSpecView,
    attributes: Seq<AttributeView>,
    out: Seq<AttributeView>,
)
    requires
        rewritten_document(spec, attributes) == Ok::<Seq<AttributeView>, TransformErrorView>(out),
    ensures
        out.len() == attributes.len(),
        forall|i: int|
            0 <= i < attributes.len() ==> #[trigger] rewritten_attribute(spec, attributes[i])
                == Ok::<AttributeView, TransformErrorView>(out[i]),
    decreases attributes.len(),
{
    if attributes.len() > 0 {
        let head = rewritten_document(spec, attributes.drop_last())->Ok_0;
        lemma_rewritten_in_place(spec, attributes.drop_last(), head);
        assert forall|i: int| 0 <= i < attributes.len() implies #[trigger] rewritten_attribute(
            spec,
            attributes[i],
        ) == Ok::<AttributeView, TransformErrorView>(out[i]) by {
            if i < attributes.len() - 1 {
                assert(attributes.drop_last()[i] == attributes[i]);
            }
        }
    }
}

/// An attribute that is not listed, or that is listed and holds no text, comes
/// out of a rewritten record as it went in.
pub proof fn lemma_untouched_attribute_unchanged(
    spec: TransformSpecView,
    attributes: Seq<AttributeView>,
    out: Seq<AttributeView>,
    i: int,
)
    requires
        rewritten_document(spec, attributes) == Ok::<Seq<AttributeView>, TransformErrorView>(out),
        0 <= i < attributes.len(),
        !spec.lists(attributes[i].name) || !(attributes[i].value is Text),
    ensures
        out.len() == attributes.len(),
        out[i] == attributes[i],
{
    lemma_rewritten_in_place(spec, attributes, out);
    assert(rewritten_attribute(spec, attributes[i]) == Ok::<AttributeView, TransformErrorView>(
        out[i],
    ));
}

/// The view of a result whose value is a document.
pub open spec fn document_result_view(r: Result<Document, TransformError>) -> Result<
    Seq<AttributeView>,
    TransformErrorView,
> {
    match r {
        Ok(document) => Ok(document@),
        Err(error) => Err(error@),
    }
}

/// Rewrites the date-bearing attributes of a decoded record in place. An
/// attribute is rewritten where its name is listed and its value is a text;
/// all others stay. The first text that cannot be rewritten fails the record.
pub fn rewrite_document(spec: &TransformSpec, document: Document) -> (r: Result<
    Document,
    TransformError,
>)
    requires
        spec.well_formed(),
    ensures
        document_result_view(r) == rewritten_document(spec@, document@),
{
    let ghost incoming = document@;
    let mut rewritten = document;
    let n: usize = rewritten.attributes.len();
    let mut i: usize = 0;
    proof {
        assert(rewritten@.take(0) =~= Seq::empty());
    }
    while i < n
        invariant
            spec.well_formed(),
            i <= n,
            n == incoming.len(),
            incoming == document@,
            rewritten@.len() == n,
            rewritten_document(spec@, incoming.take(i as int)) == Ok::<
                Seq<AttributeView>,
                TransformErrorView,
            >(rewritten@.take(i as int)),
            forall|k: int| i <= k < n ==> rewritten@[k] == incoming[k],
        decreases n - i,
    {
        let ghost before = rewritten@;
        let ghost prefix = incoming.take(i as int + 1);
        assert(prefix.drop_last() =~= incoming.take(i as int));
        let attribute = &rewritten.attributes[i];
        let replacement: Option<Attribute> = match &attribute.value {
            AttributeValue::Text(text) => if spec.lists(&attribute.name) {
                match date_change(spec, text.as_str()) {
                    Ok(out) => Some(
                        Attribute { name: attribute.name.clone(), value: AttributeValue::Text(out) },
                    ),
                    Err(error) => {
                        proof {
                            lemma_prefix_failure(spec@, incoming, i as int + 1);
                        }
                        return Err(error);
                    },
                }
            } else {
                None
            },
            AttributeValue::Other(_) => None,
        };
        match replacement {
            Some(fresh) => {
                rewritten.attributes.set(i, fresh);
            },
            None => {},
        }
        i += 1;
        proof {
            assert(rewritten@.take(i as int) =~= before.take(i as int - 1).push(
                rewritten@[i as int - 1],
            ));
        }
    }
    proof {
        assert(incoming.take(n as int) =~= incoming);
        assert(rewritten@.take(n as int) =~= rewritten@);
    }
    Ok(rewritten)
}

/// What `transform_document` returns for the JSON text `value`: the text is
/// decoded, its listed attributes are rewritten, and the record is encoded
/// again.
pub open spec fn document_outcome(spec: TransformSpecView, value: Seq<char>) -> Result<
    Seq<char>,
    TransformErrorView,
> {
    match decode_outcome(value) {
        Err(error) => Err(error),
        Ok(attributes) => match rewritten_document(spec, attributes) {
            Err(error) => Err(error),
            Ok(out) => encode_outcome(out),
        },
    }
}

/// Rewrites the listed attributes of a structured record given as JSON text.
pub fn transform_document(spec: &TransformSpec, value: &str) -> (r: Result<String, TransformError>)
    requires
        spec.well_formed(),
    ensures
        text_result_view(r) == document_outcome(spec@, value@),
{
    match Document::decode(value) {
        Err(error) => Err(error),
        Ok(document) => match rewrite_document(spec, document) {
            Err(error) => Err(error),
            Ok(rewritten) => rewritten.encode(),
        },
    }
}

/// The value that stands for a record that could not be rewritten: the word
/// `error`, the message, and on a line of its own the value as it came in.
pub open spec fn annotation(message: Seq<char>, value: Seq<char>) -> Seq<char> {
    "error: "@ + message + "\n"@ + value
}

/// Writes the annotation of `value` for `error`.
pub fn annotate(error: &TransformError, value: &str) -> (r: String)
    ensures
        r@ == annotation(error@.message(), value@),
{
    let message: String = error.message();
    String::from_str("error: ").concat(message.as_str()).concat("\n").concat(value)
}

/// What a record's value becomes under the fail-the-record policy.
pub open spec fn strict_outcome(spec: TransformSpecView, mode: Mode, value: Seq<char>) -> Result<
    Seq<char>,
    TransformErrorView,
> {
    match mode {
        Mode::RawText => date_change_outcome(spec, value),
        Mode::Structured => document_outcome(spec, value),
    }
}

/// What a record's value becomes: the rewritten value; or, where it cannot be
/// rewritten, the error under `FailRecord` and the annotated value under
/// `Annotate`.
pub open spec fn transform_outcome(
    spec: TransformSpecView,
    mode: Mode,
    policy: FailurePolicy,
    value: Seq<char>,
) -> Result<Seq<char>, TransformErrorView> {
    match strict_outcome(spec, mode, value) {
        Ok(out) => Ok(out),
        Err(error) => match policy {
            FailurePolicy::FailRecord => Err(error),
            FailurePolicy::Annotate => Ok(annotation(error.message(), value)),
        },
    }
}

/// Transforms the value of one record.
pub fn transform(spec: &TransformSpec, mode: Mode, policy: FailurePolicy, value: &str) -> (r:
    Result<String, TransformError>)
    requires
        spec.well_formed(),
    ensures
        text_result_view(r) == transform_outcome(spec@, mode, policy, value@),
{
    let strict: Result<String, TransformError> = match mode {
        Mode::RawText => date_change(spec, value),
        Mode::Structured => transform_document(spec, value),
    };
    match strict {
        Ok(out) => Ok(out),
        Err(error) => match policy {
            FailurePolicy::FailRecord => Err(error),
            FailurePolicy::Annotate => Ok(annotate(&error, value)),
        },
    }
}

/// What `map` makes of a record's value with a store in `state`: nothing can be
/// transformed before the store holds a specification.
pub open spec fn map_outcome(
    state: Option<TransformSpecView>,
    mode: Mode,
    policy: FailurePolicy,
    value: Seq<char>,
) -> Result<Seq<char>, TransformErrorView> {
    match state {
        None => Err(TransformErrorView::Uninitialized),
        Some(spec) => transform_outcome(spec, mode, policy, value),
    }
}

/// Transforms one record with the stored specification. The key is passed
/// through; the value is rewritten.
pub fn map(store: &ConfigStore, mode: Mode, policy: FailurePolicy, record: &Record) -> (r: Result<
    (Option<Vec<u8>>, String),
    TransformError,
>)
    ensures
        match r {
            Ok(pair) => map_outcome(store@, mode, policy, record.value@) == Ok::<
                Seq<char>,
                TransformErrorView,
            >(pair.1@) && key_view(pair.0) == key_view(record.key),
            Err(error) => map_outcome(store@, mode, policy, record.value@) == Err::<
                Seq<char>,
                TransformErrorView,
            >(error@),
        },
{
    match store.current() {
        Err(_) => Err(TransformError::Uninitialized),
        Ok(spec) => match transform(spec, mode, policy, record.value.as_str()) {
            Err(error) => Err(error),
            Ok(value) => {
                let key: Option<Vec<u8>> = match &record.key {
                    Some(bytes) => Some(bytes.clone()),
                    None => None,
                };
                Ok((key, value))
            },
        },
    }
}

/// An annotation begins with the word `error` and ends with the value as it
/// came in, letter for letter.
pub proof fn lemma_annotation_embeds_value(message: Seq<char>, value: Seq<char>)
    ensures
        "error: "@.is_prefix_of(annotation(message, value)),
        value.is_suffix_of(annotation(message, value)),
{
}

/// A date text that does not match the source pattern has one outcome under
/// each policy: under `FailRecord` the `DateParseError` that carries the text
/// and the parser's reason, under `Annotate` the annotation of the text with
/// that error's message.
pub proof fn lemma_unmatched_text_outcome(spec: TransformSpecView, text: Seq<char>)
    requires
        parsed_datetime(text, spec.source_format) is Err,
    ensures
        transform_outcome(spec, Mode::RawText, FailurePolicy::FailRecord, text) == Err::<
            Seq<char>,
            TransformErrorView,
        >(
            TransformErrorView::DateParseError {
                input: text,
                reason: parsed_datetime(text, spec.source_format)->Err_0,
            },
        ),
        transform_outcome(spec, Mode::RawText, FailurePolicy::Annotate, text) == Ok::<
            Seq<char>,
            TransformErrorView,
        >(
            annotation(
                "Failed to parse date: "@ + parsed_datetime(text, spec.source_format)->Err_0,
                text,
            ),
        ),
{
}

/// Whether chrono reads `utc`, written under `pattern`, back as the reading
/// that it wrote. It does so for patterns that name every part of a date-time.
pub open spec fn reads_back(utc: UtcDateTime, pattern: Seq<char>) -> bool {
    formatted_datetime(utc, pattern) matches Some(out) && parsed_datetime(out, pattern) == Ok::<
        LocalDateTime,
        Seq<char>,
    >(LocalDateTime { seconds: utc.seconds, nanos: utc.nanos })
}

/// The transform keeps the instant. A text that matches the source pattern is
/// rewritten, under either policy; and the rewritten text, read back under the
/// output pattern as a reading on the UTC clock and moved to the source offset
/// again, is the reading that the text gave. This holds where the instant has
/// a second count in the machine's range and where chrono reads back under the
/// output pattern what it wrote.
pub proof fn lemma_round_trip_preserves_instant(
    spec: TransformSpecView,
    policy: FailurePolicy,
    text: Seq<char>,
)
    requires
        spec.well_formed(),
        parsed_datetime(text, spec.source_format) matches Ok(local) && utc_of(
            local,
            spec.offset_seconds(),
        ) matches Some(utc) && reads_back(utc, spec.output_format),
    ensures
        transform_outcome(spec, Mode::RawText, policy, text) matches Ok(out) && parsed_datetime(
            out,
            spec.output_format,
        ) matches Ok(back) && local_of(
            UtcDateTime { seconds: back.seconds, nanos: back.nanos },
            spec.offset_seconds(),
        ) == Some(parsed_datetime(text, spec.source_format)->Ok_0),
{
    let local = parsed_datetime(text, spec.source_format)->Ok_0;
    lemma_offset_round_trip(local, spec.offset_seconds());
}

/// Nothing is transformed before a specification is stored: with an empty
/// store every record fails with `Uninitialized`, under either policy.
pub proof fn lemma_nothing_transformed_before_initialize(
    mode: Mode,
    policy: FailurePolicy,
    value: Seq<char>,
)
    ensures
        map_outcome(None, mode, policy, value) == Err::<Seq<char>, TransformErrorView>(
            TransformErrorView::Uninitialized,
        ),
{
}

} // verus!
