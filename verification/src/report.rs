//! What a run shows for its settings.

use crate::args::Args;
use crate::error::{Field, QueryError, WeatherError};
use crate::serialize::{conditions_json, scalar_text};
use crate::weather_data::{reading, ConditionsView, ScalarView, WeatherData};
use vstd::prelude::*;

verus! {

/// What a run may be asked to show.
#[derive(Debug, Copy, Clone, PartialEq, Eq, Structural)]
pub enum Output {
    /// The value of the temperature alone.
    Temperature,
    /// The value of the relative humidity alone.
    RelativeHumidity,
    /// The current conditions as JSON.
    Json,
}

/// What the settings ask for. The temperature goes before the relative
/// humidity where both are asked for.
pub open spec fn wanted(temperature_only: bool, relative_humidity_only: bool) -> Output {
    if temperature_only {
        Output::Temperature
    } else if relative_humidity_only {
        Output::RelativeHumidity
    } else {
        Output::Json
    }
}

/// The line for a reading on its own: its value, or that it is not
/// available.
pub open spec fn reading_line(value: Option<ScalarView>, field: Field) -> Result<
    Seq<char>,
    QueryError,
> {
    match value {
        Some(value) => Ok(scalar_text(value)),
        None => Err(QueryError::FieldUnavailable(field)),
    }
}

impl Args {
    /// What the settings ask for.
    pub fn output(&self) -> (r: Output)
        ensures
            r == wanted(self.temperature_only, self.relative_humidity_only),
    {
        if self.temperature_only {
            Output::Temperature
        } else if self.relative_humidity_only {
            Output::RelativeHumidity
        } else {
            Output::Json
        }
    }

    /// The address to fetch the station document from.
    pub fn fetch_url(&self) -> (r: Result<&str, WeatherError>)
        ensures
            match r {
                Ok(url) => self.url is Some && url@ == self.url->0@,
                Err(e) => self.url is None && e is MissingUrl,
            },
    {
        match &self.url {
            Some(url) => Ok(url.as_str()),
            None => Err(WeatherError::MissingUrl),
        }
    }
}

/// What a run shows of `conditions` when it is asked for `output`: the
/// line, or why there is none. A reading that is not available gives its
/// error; conditions that cannot be written as JSON give `Err(None)`, which
/// conditions that are ready never do.
pub open spec fn shown(output: Output, conditions: ConditionsView) -> Result<
    Seq<char>,
    Option<QueryError>,
> {
    match output {
        Output::Temperature => match reading_line(
            reading(conditions.temperature),
            Field::Temperature,
        ) {
            Ok(line) => Ok(line),
            Err(e) => Err(Some(e)),
        },
        Output::RelativeHumidity => match reading_line(
            reading(conditions.relative_humidity),
            Field::RelativeHumidity,
        ) {
            Ok(line) => Ok(line),
            Err(e) => Err(Some(e)),
        },
        Output::Json => match conditions_json(conditions) {
            Some(text) => Ok(text),
            None => Err(None),
        },
    }
}

/// The line that a run with the settings `args` shows for `weather_data`:
/// the value of the temperature, the value of the relative humidity, or the
/// conditions as JSON. Only a reading that is not available stands in the
/// way.
pub fn display_weather(args: &Args, weather_data: &WeatherData) -> (r: Result<String, WeatherError>)
    ensures
        match r {
            Ok(line) => shown(
                wanted(args.temperature_only, args.relative_humidity_only),
                weather_data@,
            ) == Ok::<Seq<char>, Option<QueryError>>(line@),
            Err(e) => match shown(
                wanted(args.temperature_only, args.relative_humidity_only),
                weather_data@,
            ) {
                Ok(_) => false,
                Err(Some(unavailable)) => e == WeatherError::Query(unavailable),
                Err(None) => false,
            },
        },
{
    match args.output() {
        Output::Temperature => match weather_data.get_temperature() {
            Ok(value) => Ok(value.to_string()),
            Err(e) => Err(WeatherError::Query(e)),
        },
        Output::RelativeHumidity => match weather_data.get_relative_humidity() {
            Ok(value) => Ok(value.to_string()),
            Err(e) => Err(WeatherError::Query(e)),
        },
        Output::Json => match weather_data.to_json() {
            Ok(text) => Ok(text),
            Err(e) => Err(WeatherError::Serialization(e)),
        },
    }
}

} // verus!
