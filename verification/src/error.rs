//! What can go wrong: at start-up, and record by record.

use vstd::prelude::*;
use vstd::string::*;

verus! {

/// Why the configuration store refused a call. Each of these is fatal: a
/// module that could not be configured processes no records.
#[derive(Debug, PartialEq, Eq)]
pub enum ConfigError {
    /// The store was asked for its specification before it was given one.
    Uninitialized,
    /// The store was given a specification though it already held one.
    AlreadyInitialized,
    /// The host supplied no configuration payload.
    MissingConfiguration,
    /// The payload could not be read, or names values out of range; the text
    /// says which.
    MalformedConfiguration(String),
}

/// A `ConfigError` with its text as a sequence of characters.
pub enum ConfigErrorView {
    Uninitialized,
    AlreadyInitialized,
    MissingConfiguration,
    MalformedConfiguration(Seq<char>),
}

impl View for ConfigError {
    type V = ConfigErrorView;

    open spec fn view(&self) -> ConfigErrorView {
        match *self {
            ConfigError::Uninitialized => ConfigErrorView::Uninitialized,
            ConfigError::AlreadyInitialized => ConfigErrorView::AlreadyInitialized,
            ConfigError::MissingConfiguration => ConfigErrorView::MissingConfiguration,
            ConfigError::MalformedConfiguration(text) => ConfigErrorView::MalformedConfiguration(
                text@,
            ),
        }
    }
}

/// Why one record could not be transformed.
#[derive(Debug, PartialEq, Eq)]
pub enum TransformError {
    /// No specification has been stored yet.
    Uninitialized,
    /// The text `input` does not match the source pattern; `reason` is what the
    /// date parser said of it.
    DateParseError { input: String, reason: String },
    /// The instant could not be written under the output pattern.
    DateFormatError,
    /// A structured document could not be decoded or encoded; the text is the
    /// codec's message.
    SerializationError(String),
}

/// A `TransformError` with its texts as sequences of characters.
pub enum TransformErrorView {
    Uninitialized,
    DateParseError { input: Seq<char>, reason: Seq<char> },
    DateFormatError,
    SerializationError(Seq<char>),
}

impl View for TransformError {
    type V = TransformErrorView;

    open spec fn view(&self) -> TransformErrorView {
        match *self {
            TransformError::Uninitialized => TransformErrorView::Uninitialized,
            TransformError::DateParseError { input, reason } => TransformErrorView::DateParseError {
                input: input@,
                reason: reason@,
            },
            TransformError::DateFormatError => TransformErrorView::DateFormatError,
            TransformError::SerializationError(text) => TransformErrorView::SerializationError(
                text@,
            ),
        }
    }
}

impl TransformErrorView {
    /// The error in words, as it is shown to a reader.
    pub open spec fn message(self) -> Seq<char> {
        match self {
            TransformErrorView::Uninitialized => "spec is not initialized"@,
            TransformErrorView::DateParseError { input, reason } => "Failed to parse date: "@
                + reason,
            TransformErrorView::DateFormatError => "Failed to format date"@,
            TransformErrorView::SerializationError(text) => text,
        }
    }
}

impl TransformError {
    /// The error in words.
    pub fn message(&self) -> (r: String)
        ensures
            r@ == self@.message(),
    {
        match self {
            TransformError::Uninitialized => String::from_str("spec is not initialized"),
            TransformError::DateParseError { input: _, reason } => {
                String::from_str("Failed to parse date: ").concat(reason.as_str())
            },
            TransformError::DateFormatError => String::from_str("Failed to format date"),
            TransformError::SerializationError(text) => text.clone(),
        }
    }
}

/// The view of a result whose value is a text.
pub open spec fn text_result_view(r: Result<String, TransformError>) -> Result<
    Seq<char>,
    TransformErrorView,
> {
    match r {
        Ok(text) => Ok(text@),
        Err(error) => Err(error@),
    }
}

} // verus!
