//! What can go wrong, in words, and the one line that reports it.

use crate::json::{json_literal, object_text, string_json, ObjectWriter};
use vstd::prelude::*;

verus! {

/// A reading that can be asked for on its own.
#[derive(Debug, Copy, Clone, PartialEq, Eq, Structural)]
pub enum Field {
    Temperature,
    RelativeHumidity,
}

impl Field {
    /// The name of the reading in a station document.
    pub open spec fn name_text(self) -> Seq<char> {
        match self {
            Field::Temperature => "temperature"@,
            Field::RelativeHumidity => "relativeHumidity"@,
        }
    }

    /// What is said when the reading is missing.
    pub open spec fn unavailable_text(self) -> Seq<char> {
        match self {
            Field::Temperature => "Temperature not available"@,
            Field::RelativeHumidity => "Relative Humidity not available"@,
        }
    }

    /// The name of the reading in a station document.
    pub fn name(&self) -> (r: &'static str)
        ensures
            r@ == self.name_text(),
    {
        match self {
            Field::Temperature => "temperature",
            Field::RelativeHumidity => "relativeHumidity",
        }
    }
}

/// The document could not be fetched: the connection failed, or the server
/// answered with a status that is no success.
#[derive(Debug, Clone, PartialEq, Eq)]
pub struct TransportError {
    pub message: String,
}

/// The document could not be turned into current conditions.
#[derive(Debug, Clone, PartialEq, Eq)]
pub enum MappingError {
    /// The text is no well-formed document of the expected shape; the cause
    /// is given in words.
    Malformed(String),
    /// A date and time record names no minute of the calendar.
    InvalidTimestamp,
}

/// A question that the current conditions cannot answer.
#[derive(Debug, Copy, Clone, PartialEq, Eq, Structural)]
pub enum QueryError {
    /// The reading is missing, or it is there without a value.
    FieldUnavailable(Field),
}

/// The current conditions could not be written as JSON.
#[derive(Debug, Clone, PartialEq, Eq)]
pub struct SerializationError {
    pub message: String,
}

/// Anything that ends a run early.
#[derive(Debug, Clone, PartialEq, Eq)]
pub enum WeatherError {
    /// The settings hold no address to fetch from.
    MissingUrl,
    Transport(TransportError),
    Mapping(MappingError),
    Query(QueryError),
    Serialization(SerializationError),
}

impl MappingError {
    /// The error in words.
    pub open spec fn message_text(self) -> Seq<char> {
        match self {
            MappingError::Malformed(cause) => cause@,
            MappingError::InvalidTimestamp => "No such local time"@,
        }
    }

    /// The error in words.
    pub fn message(&self) -> (r: String)
        ensures
            r@ == self.message_text(),
    {
        match self {
            MappingError::Malformed(cause) => cause.clone(),
            MappingError::InvalidTimestamp => String::from_str("No such local time"),
        }
    }
}

impl QueryError {
    /// The error in words.
    pub open spec fn message_text(self) -> Seq<char> {
        match self {
            QueryError::FieldUnavailable(field) => field.unavailable_text(),
        }
    }

    /// The error in words.
    pub fn message(&self) -> (r: String)
        ensures
            r@ == self.message_text(),
    {
        match self {
            QueryError::FieldUnavailable(Field::Temperature) => String::from_str(
                "Temperature not available",
            ),
            QueryError::FieldUnavailable(Field::RelativeHumidity) => String::from_str(
                "Relative Humidity not available",
            ),
        }
    }
}

impl WeatherError {
    /// The error in words.
    pub open spec fn message_text(self) -> Seq<char> {
        match self {
            WeatherError::MissingUrl => "no url in args"@,
            WeatherError::Transport(e) => e.message@,
            WeatherError::Mapping(e) => e.message_text(),
            WeatherError::Query(e) => e.message_text(),
            WeatherError::Serialization(e) => e.message@,
        }
    }

    /// The error in words.
    pub fn message(&self) -> (r: String)
        ensures
            r@ == self.message_text(),
    {
        match self {
            WeatherError::MissingUrl => String::from_str("no url in args"),
            WeatherError::Transport(e) => e.message.clone(),
            WeatherError::Mapping(e) => e.message(),
            WeatherError::Query(e) => e.message(),
            WeatherError::Serialization(e) => e.message.clone(),
        }
    }
}

/// The line that reports a failure with the words `message`: an object with
/// the one member `error`, whose value is the message as a string.
pub open spec fn error_line(message: Seq<char>) -> Seq<char> {
    object_text(seq![("error"@, json_literal(message))])
}

/// The line with which a run that failed with `e` ends: the program writes
/// it to its output and leaves with a failure status.
pub fn exit_error_json(e: &WeatherError) -> (line: String)
    ensures
        line@ == error_line(e.message_text()),
{
    let message = e.message();
    let literal = string_json(message.as_str());
    let writer = ObjectWriter::new().member("error", literal.as_str());
    assert(writer.members() == seq![("error"@, literal@)]);
    writer.finish()
}

} // verus!
