//! The transform specification and the write-once store that holds it.

use crate::datetime::{offset_seconds, valid_offset_hours, SECONDS_PER_HOUR};
use crate::error::{ConfigError, ConfigErrorView};
use vstd::prelude::*;
use vstd::string::*;

verus! {

/// How dates are laid out in incoming records and how they are to be written.
#[derive(Debug, PartialEq, Eq)]
pub struct TransformSpec {
    /// The `strftime` pattern that incoming date text is read with.
    pub source_format: String,
    /// The `strftime` pattern that outgoing date text is written with.
    pub output_format: String,
    /// Whole hours that the source wall clock is ahead of UTC.
    pub source_timezone: i32,
    /// The zone that output is written in. Output is always UTC; the value is
    /// kept and never consulted.
    pub output_timezone: String,
    /// Names of the attributes of a structured record that carry dates. A name
    /// listed twice counts once. Not consulted for records that are one text.
    pub fields: Vec<String>,
}

/// A `TransformSpec` as mathematical values.
pub struct TransformSpecView {
    pub source_format: Seq<char>,
    pub output_format: Seq<char>,
    pub source_timezone: int,
    pub output_timezone: Seq<char>,
    pub fields: Seq<Seq<char>>,
}

impl View for TransformSpec {
    type V = TransformSpecView;

    open spec fn view(&self) -> TransformSpecView {
        TransformSpecView {
            source_format: self.source_format@,
            output_format: self.output_format@,
            source_timezone: self.source_timezone as int,
            output_timezone: self.output_timezone@,
            fields: self.fields@.map_values(|name: String| name@),
        }
    }
}

impl TransformSpecView {
    /// What is wrong with the specification, in words; `None` where nothing
    /// is.
    pub open spec fn fault(self) -> Option<Seq<char>> {
        if !valid_offset_hours(self.source_timezone) {
            Some("source_timezone is out of range"@)
        } else {
            None
        }
    }

    /// Nothing is wrong with the specification: its source offset is a fixed
    /// offset, less than a day either way.
    pub open spec fn well_formed(self) -> bool {
        self.fault() is None
    }

    /// The source offset in seconds east of UTC.
    pub open spec fn offset_seconds(self) -> int {
        self.source_timezone * SECONDS_PER_HOUR
    }

    /// Whether `name` is one of the date-bearing attributes.
    pub open spec fn lists(self, name: Seq<char>) -> bool {
        self.fields.contains(name)
    }
}

impl TransformSpec {
    /// See [`TransformSpecView::well_formed`].
    pub open spec fn well_formed(&self) -> bool {
        self@.well_formed()
    }

    /// Checks the ranges of the specification's values: the source offset has
    /// to be a fixed offset.
    pub fn validate(&self) -> (r: Result<(), ConfigError>)
        ensures
            match r {
                Ok(_) => self@.fault() is None && self.well_formed(),
                Err(error) => self@.fault() matches Some(text)
                    && error@ == ConfigErrorView::MalformedConfiguration(text),
            },
    {
        match offset_seconds(self.source_timezone) {
            Some(_) => Ok(()),
            None => Err(
                ConfigError::MalformedConfiguration(
                    String::from_str("source_timezone is out of range"),
                ),
            ),
        }
    }

    /// The source offset in seconds east of UTC.
    pub fn offset_seconds(&self) -> (r: i32)
        requires
            self.well_formed(),
        ensures
            r == self@.offset_seconds(),
    {
        match offset_seconds(self.source_timezone) {
            Some(seconds) => seconds,
            None => unreached(),
        }
    }

    /// Whether `name` is one of the date-bearing attributes.
    pub fn lists(&self, name: &String) -> (r: bool)
        ensures
            r == self@.lists(name@),
    {
        let mut i: usize = 0;
        while i < self.fields.len()
            invariant
                i <= self.fields.len(),
                forall|k: int| 0 <= k < i ==> self@.fields[k] != name@,
            decreases self.fields.len() - i,
        {
            if self.fields[i] == *name {
                assert(self@.fields[i as int] == name@);
                return true;
            }
            i += 1;
        }
        false
    }
}

/// What the host handed over at start-up, after it was read.
#[derive(Debug, PartialEq, Eq)]
pub enum ConfigPayload {
    /// The host supplied no configuration.
    Missing,
    /// The host supplied a text that is no specification; the text inside says
    /// why.
    Malformed(String),
    /// The specification that the host's text holds.
    Decoded(TransformSpec),
}

/// A `ConfigPayload` as mathematical values.
pub enum ConfigPayloadView {
    Missing,
    Malformed(Seq<char>),
    Decoded(TransformSpecView),
}

impl View for ConfigPayload {
    type V = ConfigPayloadView;

    open spec fn view(&self) -> ConfigPayloadView {
        match *self {
            ConfigPayload::Missing => ConfigPayloadView::Missing,
            ConfigPayload::Malformed(text) => ConfigPayloadView::Malformed(text@),
            ConfigPayload::Decoded(spec) => ConfigPayloadView::Decoded(spec@),
        }
    }
}

/// The view of what `initialize` returns.
pub open spec fn config_result_view(r: Result<(), ConfigError>) -> Result<(), ConfigErrorView> {
    match r {
        Ok(_) => Ok(()),
        Err(error) => Err(error@),
    }
}

/// The store after `initialize` and what the call returns, from the store
/// before (`None` while it holds nothing) and the payload. A store that holds a
/// specification refuses every payload and keeps what it holds.
pub open spec fn initialize_outcome(
    state: Option<TransformSpecView>,
    payload: ConfigPayloadView,
) -> (Option<TransformSpecView>, Result<(), ConfigErrorView>) {
    if state is Some {
        (state, Err(ConfigErrorView::AlreadyInitialized))
    } else {
        match payload {
            ConfigPayloadView::Missing => (None, Err(ConfigErrorView::MissingConfiguration)),
            ConfigPayloadView::Malformed(text) => (
                None,
                Err(ConfigErrorView::MalformedConfiguration(text)),
            ),
            ConfigPayloadView::Decoded(spec) => match spec.fault() {
                Some(text) => (None, Err(ConfigErrorView::MalformedConfiguration(text))),
                None => (Some(spec), Ok(())),
            },
        }
    }
}

/// What `current` returns for a store in `state`.
pub open spec fn current_outcome(state: Option<TransformSpecView>) -> Result<
    TransformSpecView,
    ConfigErrorView,
> {
    match state {
        Some(spec) => Ok(spec),
        None => Err(ConfigErrorView::Uninitialized),
    }
}

/// Holds the transform specification. It starts empty, takes one
/// specification, and never changes again.
pub struct ConfigStore {
    spec: Option<TransformSpec>,
}

impl View for ConfigStore {
    type V = Option<TransformSpecView>;

    closed spec fn view(&self) -> Option<TransformSpecView> {
        match self.spec {
            Some(spec) => Some(spec@),
            None => None,
        }
    }
}

impl ConfigStore {
    #[verifier::type_invariant]
    spec fn holds_only_checked(self) -> bool {
        self.spec matches Some(spec) ==> spec.well_formed()
    }

    /// A store that holds nothing yet.
    pub fn new() -> (store: ConfigStore)
        ensures
            store@ is None,
    {
        ConfigStore { spec: None }
    }

    /// Stores the specification of `payload`, once. Fails, and leaves the store
    /// as it was, where the store already holds one, where the payload is
    /// missing or malformed, or where the specification's values are out of
    /// range.
    pub fn initialize(&mut self, payload: ConfigPayload) -> (r: Result<(), ConfigError>)
        ensures
            (final(self)@, config_result_view(r)) == initialize_outcome(old(self)@, payload@),
    {
        if self.spec.is_some() {
            return Err(ConfigError::AlreadyInitialized);
        }
        match payload {
            ConfigPayload::Missing => Err(ConfigError::MissingConfiguration),
            ConfigPayload::Malformed(text) => Err(ConfigError::MalformedConfiguration(text)),
            ConfigPayload::Decoded(spec) => match spec.validate() {
                Err(error) => Err(error),
                Ok(_) => {
                    self.spec = Some(spec);
                    Ok(())
                },
            },
        }
    }

    /// The stored specification; `Uninitialized` while there is none.
    pub fn current(&self) -> (r: Result<&TransformSpec, ConfigError>)
        ensures
            match r {
                Ok(spec) => current_outcome(self@) == Ok::<TransformSpecView, ConfigErrorView>(
                    spec@,
                ) && spec.well_formed(),
                Err(error) => current_outcome(self@) == Err::<TransformSpecView, ConfigErrorView>(
                    error@,
                ),
            },
    {
        proof {
            use_type_invariant(self);
        }
        match &self.spec {
            Some(spec) => Ok(spec),
            None => Err(ConfigError::Uninitialized),
        }
    }
}

/// Initialisation happens once: after a call that stored a specification, a
/// further call fails with `AlreadyInitialized` and leaves the store as it is,
/// whatever its payload.
pub proof fn lemma_initialize_once(
    state: Option<TransformSpecView>,
    first: ConfigPayloadView,
    second: ConfigPayloadView,
)
    requires
        initialize_outcome(state, first).1 is Ok,
    ensures
        initialize_outcome(initialize_outcome(state, first).0, second) == (
            initialize_outcome(state, first).0,
            Err::<(), ConfigErrorView>(ConfigErrorView::AlreadyInitialized),
        ),
{
}

/// A store that was never initialised with success holds nothing: a failed
/// call leaves an empty store empty, and an empty store answers
/// `Uninitialized`.
pub proof fn lemma_uninitialized_until_success(payload: ConfigPayloadView)
    requires
        initialize_outcome(None, payload).1 is Err,
    ensures
        initialize_outcome(None, payload).0 is None,
        current_outcome(initialize_outcome(None, payload).0) == Err::<
            TransformSpecView,
            ConfigErrorView,
        >(ConfigErrorView::Uninitialized),
{
}

} // verus!
