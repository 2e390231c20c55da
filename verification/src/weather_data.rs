//! The current conditions at one station: the readings as the station
//! document gives them, the instant they were taken, and what can be asked
//! of them.

use crate::error::{Field, MappingError, QueryError, SerializationError, WeatherError};
use crate::transport::{check_status, failure_text, is_success};
use crate::instant::{instant_literal, local_to_utc, utc_seconds};
use crate::json::{is_braced, members_are_values, text_view};
use crate::serialize::{conditions_json, conditions_members};
use vstd::prelude::*;

verus! {

/// The value of a reading: a number, or text as the document gave it.
///
/// This library does no arithmetic on readings, so it holds a number by its
/// spellings. Whoever makes the value supplies them, and says of a text
/// whether it reads as a number. A spelling that is no JSON number counts
/// for nothing when the value is written as JSON.
#[derive(Debug, Clone, PartialEq, Eq)]
pub enum Stringf64 {
    /// A number.
    Number {
        /// The number in plain decimal writing.
        plain: String,
        /// The number as a JSON number, if JSON has one for it.
        json: Option<String>,
    },
    /// Text.
    Text {
        /// The text, letter for letter.
        text: String,
        /// If the text reads as a number: that number as a JSON number, if
        /// JSON has one for it.
        number: Option<String>,
    },
}

/// A [`Stringf64`] as mathematics sees it.
pub enum ScalarView {
    Number { plain: Seq<char>, json: Option<Seq<char>> },
    Text { text: Seq<char>, number: Option<Seq<char>> },
}

impl View for Stringf64 {
    type V = ScalarView;

    open spec fn view(&self) -> ScalarView {
        match *self {
            Stringf64::Number { plain, json } => ScalarView::Number {
                plain: plain@,
                json: text_view(json),
            },
            Stringf64::Text { text, number } => ScalarView::Text {
                text: text@,
                number: text_view(number),
            },
        }
    }
}

/// One reading: a value, the system of units and the unit.
#[derive(Debug, Clone, PartialEq, Eq)]
pub struct Measurement {
    pub value: Option<Stringf64>,
    pub unit_type: Option<String>,
    pub units: Option<String>,
}

/// A [`Measurement`] as mathematics sees it.
pub struct MeasurementView {
    pub value: Option<ScalarView>,
    pub unit_type: Option<Seq<char>>,
    pub units: Option<Seq<char>>,
}

impl View for Measurement {
    type V = MeasurementView;

    open spec fn view(&self) -> MeasurementView {
        MeasurementView {
            value: match self.value {
                Some(value) => Some(value@),
                None => None,
            },
            unit_type: text_view(self.unit_type),
            units: text_view(self.units),
        }
    }
}

/// A reading that may be missing, as mathematics sees it.
pub open spec fn measurement_view(measurement: Option<Measurement>) -> Option<MeasurementView> {
    match measurement {
        Some(measurement) => Some(measurement@),
        None => None,
    }
}

/// The wind: speed, gusts, the compass point it blows from and the bearing.
#[derive(Debug, Clone, PartialEq, Eq)]
pub struct Wind {
    pub speed: Option<Measurement>,
    pub gust: Option<Measurement>,
    pub direction: Option<String>,
    pub bearing: Option<Measurement>,
}

/// A [`Wind`] as mathematics sees it.
pub struct WindView {
    pub speed: Option<MeasurementView>,
    pub gust: Option<MeasurementView>,
    pub direction: Option<Seq<char>>,
    pub bearing: Option<MeasurementView>,
}

impl View for Wind {
    type V = WindView;

    open spec fn view(&self) -> WindView {
        WindView {
            speed: measurement_view(self.speed),
            gust: measurement_view(self.gust),
            direction: text_view(self.direction),
            bearing: measurement_view(self.bearing),
        }
    }
}

/// A date and time as a station document records it: what the clocks of one
/// zone showed, and how far that zone is ahead of UTC.
#[derive(Debug, Clone, PartialEq, Eq)]
pub struct DateTimeXML {
    /// Whole hours that the zone is ahead of UTC.
    pub utc_offset: i32,
    /// The zone's name.
    pub zone: String,
    pub year: i32,
    pub month: u32,
    pub day: u32,
    pub hour: u32,
    pub minute: u32,
    /// The date and time in words.
    pub text_summary: String,
}

/// A [`DateTimeXML`] as mathematics sees it.
pub struct DateTimeView {
    pub utc_offset: int,
    pub zone: Seq<char>,
    pub year: int,
    pub month: int,
    pub day: int,
    pub hour: int,
    pub minute: int,
    pub text_summary: Seq<char>,
}

impl DateTimeView {
    /// The instant that the record names, in seconds since the start of
    /// 1970 in UTC: the start of the minute it shows, read `utc_offset`
    /// whole hours ahead of UTC. `None` where it names none.
    pub open spec fn instant(self) -> Option<int> {
        if i32::MIN <= self.utc_offset * 3600 <= i32::MAX {
            utc_seconds(
                self.utc_offset * 3600,
                self.year,
                self.month,
                self.day,
                self.hour,
                self.minute,
                0,
            )
        } else {
            None
        }
    }

    /// The instant at which clocks that keep UTC show the minute of the
    /// record.
    pub open spec fn instant_at_utc(self) -> Option<int> {
        utc_seconds(0, self.year, self.month, self.day, self.hour, self.minute, 0)
    }

    /// What every record that names an instant has: a zone less than a day
    /// from UTC, a month of the year, a day no later than the 31st, an hour
    /// and a minute of the clock.
    pub open spec fn in_range(self) -> bool {
        &&& -24 < self.utc_offset < 24
        &&& 1 <= self.month <= 12
        &&& 1 <= self.day <= 31
        &&& 0 <= self.hour <= 23
        &&& 0 <= self.minute <= 59
    }
}

impl View for DateTimeXML {
    type V = DateTimeView;

    open spec fn view(&self) -> DateTimeView {
        DateTimeView {
            utc_offset: self.utc_offset as int,
            zone: self.zone@,
            year: self.year as int,
            month: self.month as int,
            day: self.day as int,
            hour: self.hour as int,
            minute: self.minute as int,
            text_summary: self.text_summary@,
        }
    }
}

impl DateTimeXML {
    /// The instant that the record names, in seconds since the start of
    /// 1970 in UTC. The offset counts east of UTC: the instant lies as many
    /// hours before the one at which UTC clocks show the same minute. An
    /// instant that a record names can be written as JSON.
    pub fn instant(&self) -> (r: Option<i64>)
        ensures
            r matches Some(seconds) ==> self@.instant() == Some(seconds as int),
            r is None ==> self@.instant() is None,
            !self@.in_range() ==> r is None,
            r matches Some(seconds) ==> self@.instant_at_utc() == Some(
                seconds + 3600 * self@.utc_offset,
            ),
            r matches Some(seconds) ==> instant_literal(seconds as int, 0) is Some,
    {
        match self.utc_offset.checked_mul(3600) {
            Some(offset_seconds) => local_to_utc(
                offset_seconds,
                self.year,
                self.month,
                self.day,
                self.hour,
                self.minute,
                0,
            ),
            None => None,
        }
    }
}

/// The current conditions at a station.
#[derive(Debug, Clone, PartialEq, Eq)]
pub struct CurrentConditions {
    pub temperature: Option<Measurement>,
    pub dewpoint: Option<Measurement>,
    pub humidex: Option<Measurement>,
    pub pressure: Option<Measurement>,
    pub visibility: Option<Measurement>,
    pub wind_chill: Option<Measurement>,
    pub relative_humidity: Option<Measurement>,
    pub wind: Option<Wind>,
    /// The date and time of the readings as the document records it, once
    /// for each zone it cares to name.
    pub date_time_xml: Vec<DateTimeXML>,
    /// The instant of the readings, in seconds since the start of 1970 in
    /// UTC.
    pub timestamp: Option<i64>,
}

/// [`CurrentConditions`] as mathematics sees them.
pub struct ConditionsView {
    pub temperature: Option<MeasurementView>,
    pub dewpoint: Option<MeasurementView>,
    pub humidex: Option<MeasurementView>,
    pub pressure: Option<MeasurementView>,
    pub visibility: Option<MeasurementView>,
    pub wind_chill: Option<MeasurementView>,
    pub relative_humidity: Option<MeasurementView>,
    pub wind: Option<WindView>,
    pub date_time_xml: Seq<DateTimeView>,
    pub timestamp: Option<int>,
}

impl View for CurrentConditions {
    type V = ConditionsView;

    open spec fn view(&self) -> ConditionsView {
        ConditionsView {
            temperature: measurement_view(self.temperature),
            dewpoint: measurement_view(self.dewpoint),
            humidex: measurement_view(self.humidex),
            pressure: measurement_view(self.pressure),
            visibility: measurement_view(self.visibility),
            wind_chill: measurement_view(self.wind_chill),
            relative_humidity: measurement_view(self.relative_humidity),
            wind: match self.wind {
                Some(wind) => Some(wind@),
                None => None,
            },
            date_time_xml: self.date_time_xml@.map_values(|record: DateTimeXML| record@),
            timestamp: match self.timestamp {
                Some(seconds) => Some(seconds as int),
                None => None,
            },
        }
    }
}

/// The instant that a run of records stands for: that of the record that
/// comes last, whatever the earlier ones say. No records, no instant.
pub open spec fn last_instant(records: Seq<DateTimeView>) -> Option<int> {
    if records.len() == 0 {
        None
    } else {
        records.last().instant()
    }
}

/// The value of a reading, if the reading is there and has one.
pub open spec fn reading(measurement: Option<MeasurementView>) -> Option<ScalarView> {
    match measurement {
        Some(measurement) => measurement.value,
        None => None,
    }
}

/// Whether `ready` is what comes of making `conditions` ready. Conditions
/// come of it if every date and time record names an instant: the same
/// readings, the instant of the last record, which is there if a record is,
/// and no records. Else nothing comes of it: `Err`, if a record names no
/// instant.
pub open spec fn made_ready(conditions: ConditionsView, ready: Result<ConditionsView, ()>) -> bool {
    match ready {
        Ok(ready) => {
            &&& forall|i: int|
                0 <= i < conditions.date_time_xml.len() ==> (
                #[trigger] conditions.date_time_xml[i]).instant() is Some
            &&& ready == ConditionsView {
                date_time_xml: Seq::empty(),
                timestamp: last_instant(conditions.date_time_xml),
                ..conditions
            }
            &&& ready.timestamp is Some <==> conditions.date_time_xml.len() > 0
        },
        Err(_) => exists|i: int|
            0 <= i < conditions.date_time_xml.len() && (
            #[trigger] conditions.date_time_xml[i]).instant() is None,
    }
}

/// The current conditions at a station, ready to be asked and written out:
/// the instant of the readings is worked out and the records it came from
/// are gone.
#[derive(Debug, PartialEq, Eq)]
pub struct WeatherData {
    current_conditions: CurrentConditions,
}

impl View for WeatherData {
    type V = ConditionsView;

    closed spec fn view(&self) -> ConditionsView {
        self.current_conditions@
    }
}

impl WeatherData {
    #[verifier::type_invariant]
    spec fn ready(self) -> bool {
        &&& self.current_conditions.date_time_xml@.len() == 0
        &&& self.current_conditions.timestamp matches Some(seconds) ==> instant_literal(
            seconds as int,
            0,
        ) is Some
    }

    /// What a station document answered with a status gives. A status that
    /// is no success ends the work before the answer is read: the error
    /// names `url` and the status, of which `code` is the code and `reason`
    /// the reason. On success `read` reads the answer; what it cannot read
    /// is its error, and what it reads is made ready as
    /// [`WeatherData::from_conditions`] does it.
    pub fn new<F: FnOnce() -> Result<CurrentConditions, WeatherError>>(
        url: &str,
        code: u16,
        reason: &str,
        read: F,
    ) -> (r: Result<WeatherData, WeatherError>)
        requires
            call_requires(read, ()),
        ensures
            !is_success(code as int) ==> r is Err && r->Err_0 is Transport
                && r->Err_0->Transport_0.message@ == failure_text(url@, code as nat, reason@),
            is_success(code as int) ==> exists|answer: Result<CurrentConditions, WeatherError>|
                #[trigger] call_ensures(read, (), answer) && match answer {
                    Ok(current_conditions) => match r {
                        Ok(weather_data) => made_ready(current_conditions@, Ok(weather_data@)),
                        Err(e) => e == WeatherError::Mapping(MappingError::InvalidTimestamp)
                            && made_ready(current_conditions@, Err(())),
                    },
                    Err(e) => r == Err::<WeatherData, WeatherError>(e),
                },
    {
        match check_status(url, code, reason) {
            Ok(_) => {},
            Err(e) => {
                return Err(WeatherError::Transport(e));
            },
        }
        let answer = read();
        match answer {
            Ok(current_conditions) => match WeatherData::from_conditions(current_conditions) {
                Ok(weather_data) => Ok(weather_data),
                Err(_) => Err(WeatherError::Mapping(MappingError::InvalidTimestamp)),
            },
            Err(e) => Err(e),
        }
    }

    /// Makes the conditions of a station document ready.
    ///
    /// Every date and time record has to name an instant: one that names
    /// none is not skipped, it ends the work. The instant of the readings is
    /// then that of the last record, and the records are dropped; an instant
    /// that `current_conditions` brings along counts for nothing. All
    /// readings stay as they are.
    pub fn from_conditions(current_conditions: CurrentConditions) -> (r: Result<
        WeatherData,
        MappingError,
    >)
        ensures
            match r {
                Ok(weather_data) => made_ready(current_conditions@, Ok(weather_data@)),
                Err(e) => e is InvalidTimestamp && made_ready(current_conditions@, Err(())),
            },
            (exists|i: int|
                0 <= i < current_conditions@.date_time_xml.len() && !(
                #[trigger] current_conditions@.date_time_xml[i]).in_range()) ==> r is Err,
    {
        let mut conditions = current_conditions;
        let ghost records = conditions@.date_time_xml;
        let mut timestamp: Option<i64> = None;
        let mut i: usize = 0;
        while i < conditions.date_time_xml.len()
            invariant
                i <= conditions.date_time_xml.len(),
                records == conditions@.date_time_xml,
                records == current_conditions@.date_time_xml,
                forall|j: int| 0 <= j < i ==> (#[trigger] records[j]).instant() is Some,
                forall|j: int| 0 <= j < i ==> (#[trigger] records[j]).in_range(),
                i == 0 ==> timestamp is None,
                i > 0 ==> timestamp is Some && records[i - 1].instant() == Some(
                    timestamp->0 as int,
                ),
                timestamp matches Some(seconds) ==> instant_literal(seconds as int, 0) is Some,
            decreases conditions.date_time_xml.len() - i,
        {
            assert(records[i as int] == conditions.date_time_xml[i as int]@);
            match conditions.date_time_xml[i].instant() {
                Some(seconds) => {
                    timestamp = Some(seconds);
                },
                None => {
                    assert(records[i as int].instant() is None);
                    return Err(MappingError::InvalidTimestamp);
                },
            }
            i += 1;
        }
        conditions.timestamp = timestamp;
        conditions.date_time_xml = Vec::new();
        let weather_data = WeatherData { current_conditions: conditions };
        assert(weather_data@.date_time_xml =~= Seq::empty());
        Ok(weather_data)
    }

    /// The current conditions. They hold no date and time records, and
    /// their instant can be written as JSON.
    pub fn current_conditions(&self) -> (r: &CurrentConditions)
        ensures
            r@ == self@,
            r@.date_time_xml.len() == 0,
            conditions_json(r@) is Some,
    {
        proof {
            use_type_invariant(self);
        }
        &self.current_conditions
    }

    /// The value of the temperature reading.
    pub fn get_temperature(&self) -> (r: Result<&Stringf64, QueryError>)
        ensures
            match r {
                Ok(value) => reading(self@.temperature) == Some(value@),
                Err(e) => reading(self@.temperature) is None && e == QueryError::FieldUnavailable(
                    Field::Temperature,
                ),
            },
    {
        if let Some(temperature) = self.current_conditions.temperature.as_ref() {
            if let Some(temperature_value) = temperature.value.as_ref() {
                return Ok(temperature_value);
            }
        }
        Err(QueryError::FieldUnavailable(Field::Temperature))
    }

    /// The value of the relative humidity reading.
    pub fn get_relative_humidity(&self) -> (r: Result<&Stringf64, QueryError>)
        ensures
            match r {
                Ok(value) => reading(self@.relative_humidity) == Some(value@),
                Err(e) => reading(self@.relative_humidity) is None && e
                    == QueryError::FieldUnavailable(Field::RelativeHumidity),
            },
    {
        if let Some(relative_humidity) = self.current_conditions.relative_humidity.as_ref() {
            if let Some(relative_humidity_value) = relative_humidity.value.as_ref() {
                return Ok(relative_humidity_value);
            }
        }
        Err(QueryError::FieldUnavailable(Field::RelativeHumidity))
    }

    /// The conditions as JSON: one object with a member for each reading
    /// that is there, for the wind and for the instant, and none for what is
    /// missing. Each value in the object is a string or an object, and each
    /// value within those a number, a string or an object: nowhere `null`.
    /// Conditions that are ready can always be written.
    pub fn to_json(&self) -> (r: Result<String, SerializationError>)
        ensures
            r is Ok,
            r matches Ok(text) ==> conditions_json(self@) == Some(text@),
            r matches Ok(text) ==> is_braced(text@) && members_are_values(
                conditions_members(self@)->0,
            ),
    {
        proof {
            use_type_invariant(self);
        }
        self.current_conditions.to_json()
    }
}

} // verus!
