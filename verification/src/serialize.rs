//! Current conditions as JSON. A reading or a part of one that is missing
//! leaves no trace in the text: no key, no `null`. What is there is written
//! in a fixed order, and a value is written as a number or as a string.

use crate::error::SerializationError;
use crate::instant::{instant_literal, instant_to_json};
use crate::json::{
    is_braced, is_quoted, is_value_text, json_literal, members_are_values, object_text,
    one_more_value, string_json, text_view, with_member, Members, ObjectWriter,
};
use crate::number::{is_json_number, reads_as_json_number};
use crate::weather_data::{
    measurement_view, ConditionsView, CurrentConditions, Measurement, MeasurementView,
    ScalarView, Stringf64, Wind, WindView,
};
use vstd::prelude::*;

verus! {

/// A value written with the spelling `number` if that is a JSON number, and
/// else as the string `text`.
pub open spec fn number_or_string(number: Option<Seq<char>>, text: Seq<char>) -> Seq<char> {
    match number {
        Some(number) => if is_json_number(number) {
            number
        } else {
            json_literal(text)
        },
        None => json_literal(text),
    }
}

/// A value as JSON. A number is written as it is spelled in JSON; if JSON
/// has no number for it, its plain writing is written as a string. A text
/// that reads as a number is written as that number, any other text as a
/// string.
pub open spec fn scalar_json(value: ScalarView) -> Seq<char> {
    match value {
        ScalarView::Number { plain, json } => number_or_string(json, plain),
        ScalarView::Text { text, number } => number_or_string(number, text),
    }
}

/// A value as it is shown on its own: a number in plain decimal writing, a
/// text letter for letter, without quotes.
pub open spec fn scalar_text(value: ScalarView) -> Seq<char> {
    match value {
        ScalarView::Number { plain, json } => plain,
        ScalarView::Text { text, number } => text,
    }
}

/// What a value that may be missing gives to write.
pub open spec fn scalar_slot(value: Option<ScalarView>) -> Option<Seq<char>> {
    match value {
        Some(value) => Some(scalar_json(value)),
        None => None,
    }
}

/// What a text that may be missing gives to write.
pub open spec fn text_slot(text: Option<Seq<char>>) -> Option<Seq<char>> {
    match text {
        Some(text) => Some(json_literal(text)),
        None => None,
    }
}

/// The members of a reading: `value`, `unitType` and `units`, each only if
/// the reading has it.
pub open spec fn measurement_members(measurement: MeasurementView) -> Members {
    let value = with_member(Members::empty(), "value"@, scalar_slot(measurement.value));
    let unit_type = with_member(value, "unitType"@, text_slot(measurement.unit_type));
    with_member(unit_type, "units"@, text_slot(measurement.units))
}

/// A reading as JSON.
pub open spec fn measurement_json(measurement: MeasurementView) -> Seq<char> {
    object_text(measurement_members(measurement))
}

/// What a reading that may be missing gives to write.
pub open spec fn measurement_slot(measurement: Option<MeasurementView>) -> Option<Seq<char>> {
    match measurement {
        Some(measurement) => Some(measurement_json(measurement)),
        None => None,
    }
}

/// The members of the wind: `speed`, `gust`, `direction` and `bearing`, each
/// only if the wind has it.
pub open spec fn wind_members(wind: WindView) -> Members {
    let speed = with_member(Members::empty(), "speed"@, measurement_slot(wind.speed));
    let gust = with_member(speed, "gust"@, measurement_slot(wind.gust));
    let direction = with_member(gust, "direction"@, text_slot(wind.direction));
    with_member(direction, "bearing"@, measurement_slot(wind.bearing))
}

/// The wind as JSON.
pub open spec fn wind_json(wind: WindView) -> Seq<char> {
    object_text(wind_members(wind))
}

/// What a wind that may be missing gives to write.
pub open spec fn wind_slot(wind: Option<WindView>) -> Option<Seq<char>> {
    match wind {
        Some(wind) => Some(wind_json(wind)),
        None => None,
    }
}

/// An instant as JSON: its date and time in UTC, as a string. `None` where
/// the calendar has no date for the instant.
pub open spec fn timestamp_json(seconds: int) -> Option<Seq<char>> {
    instant_literal(seconds, 0)
}

/// The members that the readings and the wind give: each only if it is
/// there.
pub open spec fn readings_members(conditions: ConditionsView) -> Members {
    let temperature = with_member(
        Members::empty(),
        "temperature"@,
        measurement_slot(conditions.temperature),
    );
    let dewpoint = with_member(temperature, "dewpoint"@, measurement_slot(conditions.dewpoint));
    let humidex = with_member(dewpoint, "humidex"@, measurement_slot(conditions.humidex));
    let pressure = with_member(humidex, "pressure"@, measurement_slot(conditions.pressure));
    let visibility = with_member(pressure, "visibility"@, measurement_slot(conditions.visibility));
    let wind_chill = with_member(visibility, "windChill"@, measurement_slot(conditions.wind_chill));
    let relative_humidity = with_member(
        wind_chill,
        "relativeHumidity"@,
        measurement_slot(conditions.relative_humidity),
    );
    with_member(relative_humidity, "wind"@, wind_slot(conditions.wind))
}

/// The members of current conditions: the seven readings, the wind and the
/// instant, each only if it is there. Date and time records are never
/// written. `None` where there is an instant that cannot be written.
pub open spec fn conditions_members(conditions: ConditionsView) -> Option<Members> {
    match conditions.timestamp {
        Some(seconds) => match timestamp_json(seconds) {
            Some(written) => Some(
                with_member(readings_members(conditions), "timestamp"@, Some(written)),
            ),
            None => None,
        },
        None => Some(readings_members(conditions)),
    }
}

/// Current conditions as JSON.
pub open spec fn conditions_json(conditions: ConditionsView) -> Option<Seq<char>> {
    match conditions_members(conditions) {
        Some(members) => Some(object_text(members)),
        None => None,
    }
}

/// An instant as JSON.
pub fn instant_json(seconds: i64) -> (r: Result<String, SerializationError>)
    ensures
        r matches Ok(literal) ==> timestamp_json(seconds as int) == Some(literal@),
        r matches Ok(literal) ==> is_quoted(literal@),
        r is Err ==> timestamp_json(seconds as int) is None,
{
    match instant_to_json(seconds, 0) {
        Some(literal) => Ok(literal),
        None => Err(
            SerializationError { message: String::from_str("timestamp out of range") },
        ),
    }
}

/// The value written with the spelling `number` if that is a JSON number,
/// and else as the string `text`.
fn number_or_string_json(number: &Option<String>, text: &str) -> (r: String)
    ensures
        r@ == number_or_string(text_view(*number), text@),
        is_json_number(r@) || is_quoted(r@),
{
    match number {
        Some(number) => {
            if reads_as_json_number(number.as_str()) {
                number.clone()
            } else {
                string_json(text)
            }
        },
        None => string_json(text),
    }
}

/// What a text that may be missing gives to write, written.
fn text_slot_json(text: &Option<String>) -> (r: Option<String>)
    ensures
        text_view(r) == text_slot(text_view(*text)),
        r matches Some(written) ==> is_value_text(written@),
{
    match text {
        Some(text) => Some(string_json(text.as_str())),
        None => None,
    }
}

/// What a reading that may be missing gives to write, written.
fn measurement_slot_json(measurement: &Option<Measurement>) -> (r: Option<String>)
    ensures
        text_view(r) == measurement_slot(measurement_view(*measurement)),
        r matches Some(written) ==> is_value_text(written@),
{
    match measurement {
        Some(measurement) => Some(measurement.to_json()),
        None => None,
    }
}

impl Stringf64 {
    /// The value as JSON: a JSON number or a JSON string, and nothing else.
    /// A number, or a text that reads as one, is a bare number where its
    /// spelling is a JSON number; any other is a string.
    pub fn to_json(&self) -> (r: String)
        ensures
            r@ == scalar_json(self@),
            is_json_number(r@) || is_quoted(r@),
    {
        match self {
            Stringf64::Number { plain, json } => number_or_string_json(json, plain.as_str()),
            Stringf64::Text { text, number } => number_or_string_json(number, text.as_str()),
        }
    }

    /// The value as it is shown on its own: a number in plain decimal
    /// writing, a text letter for letter.
    pub fn to_string(&self) -> (r: String)
        ensures
            r@ == scalar_text(self@),
    {
        match self {
            Stringf64::Number { plain, json } => plain.clone(),
            Stringf64::Text { text, number } => text.clone(),
        }
    }
}

impl Measurement {
    /// The reading as JSON: an object with what the reading has, and no
    /// member for what it lacks. Each value in it is a number or a string.
    pub fn to_json(&self) -> (r: String)
        ensures
            r@ == measurement_json(self@),
            is_braced(r@),
            members_are_values(measurement_members(self@)),
    {
        let value = match &self.value {
            Some(value) => Some(value.to_json()),
            None => None,
        };
        let unit_type = text_slot_json(&self.unit_type);
        let units = text_slot_json(&self.units);
        proof {
            let m0 = Members::empty();
            let m1 = with_member(m0, "value"@, text_view(value));
            let m2 = with_member(m1, "unitType"@, text_view(unit_type));
            one_more_value(m0, "value"@, text_view(value));
            one_more_value(m1, "unitType"@, text_view(unit_type));
            one_more_value(m2, "units"@, text_view(units));
        }
        let writer = ObjectWriter::new().optional_member("value", value).optional_member(
            "unitType",
            unit_type,
        ).optional_member("units", units);
        writer.finish()
    }
}

impl Wind {
    /// The wind as JSON: an object with what is known of the wind, and no
    /// member for what is not. Each value in it is a string or an object.
    pub fn to_json(&self) -> (r: String)
        ensures
            r@ == wind_json(self@),
            is_braced(r@),
            members_are_values(wind_members(self@)),
    {
        let speed = measurement_slot_json(&self.speed);
        let gust = measurement_slot_json(&self.gust);
        let direction = text_slot_json(&self.direction);
        let bearing = measurement_slot_json(&self.bearing);
        proof {
            let m0 = Members::empty();
            let m1 = with_member(m0, "speed"@, text_view(speed));
            let m2 = with_member(m1, "gust"@, text_view(gust));
            let m3 = with_member(m2, "direction"@, text_view(direction));
            one_more_value(m0, "speed"@, text_view(speed));
            one_more_value(m1, "gust"@, text_view(gust));
            one_more_value(m2, "direction"@, text_view(direction));
            one_more_value(m3, "bearing"@, text_view(bearing));
        }
        let writer = ObjectWriter::new().optional_member("speed", speed).optional_member(
            "gust",
            gust,
        ).optional_member("direction", direction).optional_member("bearing", bearing);
        writer.finish()
    }
}

impl CurrentConditions {
    /// The conditions as JSON: an object with the readings that are there,
    /// the wind and the instant, and no member for what is missing. The
    /// date and time records are not written. Each value in the object is a
    /// string or an object. Only an instant for which the calendar has no
    /// date stands in the way.
    pub fn to_json(&self) -> (r: Result<String, SerializationError>)
        ensures
            r matches Ok(text) ==> conditions_json(self@) == Some(text@),
            r matches Ok(text) ==> is_braced(text@) && members_are_values(
                conditions_members(self@)->0,
            ),
            r is Err ==> conditions_json(self@) is None,
    {
        let timestamp = match self.timestamp {
            Some(seconds) => Some(instant_json(seconds)?),
            None => None,
        };
        let temperature = measurement_slot_json(&self.temperature);
        let dewpoint = measurement_slot_json(&self.dewpoint);
        let humidex = measurement_slot_json(&self.humidex);
        let pressure = measurement_slot_json(&self.pressure);
        let visibility = measurement_slot_json(&self.visibility);
        let wind_chill = measurement_slot_json(&self.wind_chill);
        let relative_humidity = measurement_slot_json(&self.relative_humidity);
        let wind = match &self.wind {
            Some(wind) => Some(wind.to_json()),
            None => None,
        };
        proof {
            let m0 = Members::empty();
            let m1 = with_member(m0, "temperature"@, text_view(temperature));
            let m2 = with_member(m1, "dewpoint"@, text_view(dewpoint));
            let m3 = with_member(m2, "humidex"@, text_view(humidex));
            let m4 = with_member(m3, "pressure"@, text_view(pressure));
            let m5 = with_member(m4, "visibility"@, text_view(visibility));
            let m6 = with_member(m5, "windChill"@, text_view(wind_chill));
            let m7 = with_member(m6, "relativeHumidity"@, text_view(relative_humidity));
            let m8 = with_member(m7, "wind"@, text_view(wind));
            one_more_value(m0, "temperature"@, text_view(temperature));
            one_more_value(m1, "dewpoint"@, text_view(dewpoint));
            one_more_value(m2, "humidex"@, text_view(humidex));
            one_more_value(m3, "pressure"@, text_view(pressure));
            one_more_value(m4, "visibility"@, text_view(visibility));
            one_more_value(m5, "windChill"@, text_view(wind_chill));
            one_more_value(m6, "relativeHumidity"@, text_view(relative_humidity));
            one_more_value(m7, "wind"@, text_view(wind));
            one_more_value(m8, "timestamp"@, text_view(timestamp));
            assert(m8 == readings_members(self@));
        }
        let writer = ObjectWriter::new().optional_member(
            "temperature",
            temperature,
        ).optional_member("dewpoint", dewpoint).optional_member(
            "humidex",
            humidex,
        ).optional_member("pressure", pressure).optional_member(
            "visibility",
            visibility,
        ).optional_member("windChill", wind_chill).optional_member(
            "relativeHumidity",
            relative_humidity,
        ).optional_member("wind", wind).optional_member("timestamp", timestamp);
        Ok(writer.finish())
    }
}

} // verus!
