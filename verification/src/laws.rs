//! What holds of every set of current conditions, whatever its readings.

use crate::error::{Field, QueryError};
use crate::json::{has_key, is_value_text, json_literal, with_member, Members};
use crate::number::is_json_number;
use crate::report::reading_line;
use crate::transport::{decimal, failure_text};
use crate::serialize::{
    conditions_members, measurement_members, measurement_slot, readings_members, scalar_json,
    scalar_slot, text_slot, timestamp_json, wind_members, wind_slot,
};
use crate::weather_data::{
    last_instant, reading, ConditionsView, DateTimeView, MeasurementView, ScalarView, WindView,
};
use vstd::prelude::*;

verus! {

/// Whether the conditions have what is written under `key`.
pub open spec fn has_field(conditions: ConditionsView, key: Seq<char>) -> bool {
    ||| key == "temperature"@ && conditions.temperature is Some
    ||| key == "dewpoint"@ && conditions.dewpoint is Some
    ||| key == "humidex"@ && conditions.humidex is Some
    ||| key == "pressure"@ && conditions.pressure is Some
    ||| key == "visibility"@ && conditions.visibility is Some
    ||| key == "windChill"@ && conditions.wind_chill is Some
    ||| key == "relativeHumidity"@ && conditions.relative_humidity is Some
    ||| key == "wind"@ && conditions.wind is Some
    ||| key == "timestamp"@ && conditions.timestamp is Some
}

/// Whether no key stands twice among the members.
pub open spec fn keys_differ(members: Members) -> bool {
    forall|i: int, j: int|
        0 <= i < members.len() && 0 <= j < members.len() && (#[trigger] members[i]).0 == (
        #[trigger] members[j]).0 ==> i == j
}

/// The place of a key among the keys of current conditions: the readings
/// first, then the wind, the instant last.
pub open spec fn key_rank(key: Seq<char>) -> int {
    if key == "temperature"@ {
        0
    } else if key == "dewpoint"@ {
        1
    } else if key == "humidex"@ {
        2
    } else if key == "pressure"@ {
        3
    } else if key == "visibility"@ {
        4
    } else if key == "windChill"@ {
        5
    } else if key == "relativeHumidity"@ {
        6
    } else if key == "wind"@ {
        7
    } else if key == "timestamp"@ {
        8
    } else {
        9
    }
}

/// Whether the members stand in the order of their keys' places.
pub open spec fn keys_in_order(members: Members) -> bool {
    forall|i: int, j: int|
        0 <= i < j < members.len() ==> key_rank((#[trigger] members[i]).0) < key_rank(
            (#[trigger] members[j]).0,
        )
}

/// Whether the members stand in order and all before the place `bound`.
spec fn in_order_below(members: Members, bound: int) -> bool {
    &&& keys_in_order(members)
    &&& forall|i: int| 0 <= i < members.len() ==> key_rank((#[trigger] members[i]).0) < bound
}

/// One step of writing an object adds the key it stands for if there is a
/// value for it, and no other key.
proof fn one_more_key(
    before: Members,
    step_key: Seq<char>,
    value: Option<Seq<char>>,
    key: Seq<char>,
)
    ensures
        has_key(with_member(before, step_key, value), key) <==> (has_key(before, key) || (value
            is Some && key == step_key)),
{
    let after = with_member(before, step_key, value);
    if value is Some {
        assert(after == before.push((step_key, value->0)));
        if has_key(before, key) {
            let i = choose|i: int| 0 <= i < before.len() && (#[trigger] before[i]).0 == key;
            assert(after[i].0 == key);
        }
        if key == step_key {
            assert(after[before.len() as int].0 == key);
        }
        if has_key(after, key) {
            let i = choose|i: int| 0 <= i < after.len() && (#[trigger] after[i]).0 == key;
            if i < before.len() {
                assert(before[i].0 == key);
            }
        }
    }
}

/// One step of writing an object keeps the members in order if its key has
/// its place after all that is written.
proof fn one_more_in_order(before: Members, step_key: Seq<char>, value: Option<Seq<char>>)
    requires
        in_order_below(before, key_rank(step_key)),
    ensures
        in_order_below(with_member(before, step_key, value), key_rank(step_key) + 1),
{
    let after = with_member(before, step_key, value);
    if value is Some {
        assert forall|i: int| 0 <= i < after.len() implies key_rank((#[trigger] after[i]).0)
            < key_rank(step_key) + 1 by {
            if i < before.len() {
                assert(before[i].0 == after[i].0);
            }
        }
        assert forall|i: int, j: int| 0 <= i < j < after.len() implies key_rank(
            (#[trigger] after[i]).0,
        ) < key_rank((#[trigger] after[j]).0) by {
            assert(before[i].0 == after[i].0);
            if j < before.len() {
                assert(before[j].0 == after[j].0);
            }
        }
    }
}

/// Members that stand in the order of their keys' places hold no key twice.
proof fn in_order_is_apart(members: Members)
    requires
        keys_in_order(members),
    ensures
        keys_differ(members),
{
    assert forall|i: int, j: int|
        0 <= i < members.len() && 0 <= j < members.len() && (#[trigger] members[i]).0 == (
        #[trigger] members[j]).0 implies i == j by {
        if i < j {
            assert(key_rank(members[i].0) < key_rank(members[j].0));
        }
        if j < i {
            assert(key_rank(members[j].0) < key_rank(members[i].0));
        }
    }
}

/// The nine keys of current conditions are nine different words.
proof fn the_keys_are_apart()
    ensures
        key_rank("temperature"@) == 0,
        key_rank("dewpoint"@) == 1,
        key_rank("humidex"@) == 2,
        key_rank("pressure"@) == 3,
        key_rank("visibility"@) == 4,
        key_rank("windChill"@) == 5,
        key_rank("relativeHumidity"@) == 6,
        key_rank("wind"@) == 7,
        key_rank("timestamp"@) == 8,
{
    reveal_strlit("temperature");
    reveal_strlit("dewpoint");
    reveal_strlit("humidex");
    reveal_strlit("pressure");
    reveal_strlit("visibility");
    reveal_strlit("windChill");
    reveal_strlit("relativeHumidity");
    reveal_strlit("wind");
    reveal_strlit("timestamp");
    assert("temperature"@.len() == 11 && "dewpoint"@.len() == 8 && "humidex"@.len() == 7);
    assert("pressure"@.len() == 8 && "visibility"@.len() == 10 && "windChill"@.len() == 9);
    assert("relativeHumidity"@.len() == 16 && "wind"@.len() == 4 && "timestamp"@.len() == 9);
    assert("dewpoint"@[0] == 'd' && "pressure"@[0] == 'p');
    assert("windChill"@[0] == 'w' && "timestamp"@[0] == 't');
}

/// The JSON object of current conditions has a key for each reading, wind
/// or instant that the conditions have, and for nothing else: what is
/// missing before it is written is missing in what is written, and what is
/// there is there. The keys stand in one order, whatever is missing, and no
/// key stands twice.
pub proof fn keys_are_what_is_there(conditions: ConditionsView, key: Seq<char>)
    ensures
        conditions_members(conditions) matches Some(members) ==> {
            &&& has_key(members, key) <==> has_field(conditions, key)
            &&& keys_in_order(members)
            &&& keys_differ(members)
        },
{
    if conditions_members(conditions) is Some {
        keys_of_written_conditions(conditions, key);
        in_order_is_apart(conditions_members(conditions)->0);
    }
}

proof fn keys_of_written_conditions(conditions: ConditionsView, key: Seq<char>)
    requires
        conditions_members(conditions) is Some,
    ensures
        has_key(conditions_members(conditions)->0, key) <==> has_field(conditions, key),
        keys_in_order(conditions_members(conditions)->0),
{
    let c = conditions;
    let m0 = Members::empty();
    let m1 = with_member(m0, "temperature"@, measurement_slot(c.temperature));
    let m2 = with_member(m1, "dewpoint"@, measurement_slot(c.dewpoint));
    let m3 = with_member(m2, "humidex"@, measurement_slot(c.humidex));
    let m4 = with_member(m3, "pressure"@, measurement_slot(c.pressure));
    let m5 = with_member(m4, "visibility"@, measurement_slot(c.visibility));
    let m6 = with_member(m5, "windChill"@, measurement_slot(c.wind_chill));
    let m7 = with_member(m6, "relativeHumidity"@, measurement_slot(c.relative_humidity));
    let m8 = with_member(m7, "wind"@, wind_slot(c.wind));
    assert(m8 == readings_members(c));
    let written = match c.timestamp {
        Some(seconds) => timestamp_json(seconds),
        None => None,
    };
    let m9 = with_member(m8, "timestamp"@, written);
    assert(conditions_members(c) == Some(m9));
    assert(written is Some <==> c.timestamp is Some);
    assert(!has_key(m0, key));
    one_more_key(m0, "temperature"@, measurement_slot(c.temperature), key);
    one_more_key(m1, "dewpoint"@, measurement_slot(c.dewpoint), key);
    one_more_key(m2, "humidex"@, measurement_slot(c.humidex), key);
    one_more_key(m3, "pressure"@, measurement_slot(c.pressure), key);
    one_more_key(m4, "visibility"@, measurement_slot(c.visibility), key);
    one_more_key(m5, "windChill"@, measurement_slot(c.wind_chill), key);
    one_more_key(m6, "relativeHumidity"@, measurement_slot(c.relative_humidity), key);
    one_more_key(m7, "wind"@, wind_slot(c.wind), key);
    one_more_key(m8, "timestamp"@, written, key);

    the_keys_are_apart();
    assert(in_order_below(m0, 0));
    one_more_in_order(m0, "temperature"@, measurement_slot(c.temperature));
    one_more_in_order(m1, "dewpoint"@, measurement_slot(c.dewpoint));
    one_more_in_order(m2, "humidex"@, measurement_slot(c.humidex));
    one_more_in_order(m3, "pressure"@, measurement_slot(c.pressure));
    one_more_in_order(m4, "visibility"@, measurement_slot(c.visibility));
    one_more_in_order(m5, "windChill"@, measurement_slot(c.wind_chill));
    one_more_in_order(m6, "relativeHumidity"@, measurement_slot(c.relative_humidity));
    one_more_in_order(m7, "wind"@, wind_slot(c.wind));
    one_more_in_order(m8, "timestamp"@, written);
}

/// Whether the reading has what is written under `key`.
pub open spec fn measurement_has(measurement: MeasurementView, key: Seq<char>) -> bool {
    ||| key == "value"@ && measurement.value is Some
    ||| key == "unitType"@ && measurement.unit_type is Some
    ||| key == "units"@ && measurement.units is Some
}

/// The JSON object of a reading has a key for each part that the reading
/// has, and for nothing else.
pub proof fn measurement_keys_are_what_is_there(measurement: MeasurementView, key: Seq<char>)
    ensures
        has_key(measurement_members(measurement), key) <==> measurement_has(measurement, key),
{
    let m0 = Members::empty();
    let m1 = with_member(m0, "value"@, scalar_slot(measurement.value));
    let m2 = with_member(m1, "unitType"@, text_slot(measurement.unit_type));
    assert(!has_key(m0, key));
    one_more_key(m0, "value"@, scalar_slot(measurement.value), key);
    one_more_key(m1, "unitType"@, text_slot(measurement.unit_type), key);
    one_more_key(m2, "units"@, text_slot(measurement.units), key);
}

/// Whether the wind has what is written under `key`.
pub open spec fn wind_has(wind: WindView, key: Seq<char>) -> bool {
    ||| key == "speed"@ && wind.speed is Some
    ||| key == "gust"@ && wind.gust is Some
    ||| key == "direction"@ && wind.direction is Some
    ||| key == "bearing"@ && wind.bearing is Some
}

/// The JSON object of the wind has a key for each part that the wind has,
/// and for nothing else.
pub proof fn wind_keys_are_what_is_there(wind: WindView, key: Seq<char>)
    ensures
        has_key(wind_members(wind), key) <==> wind_has(wind, key),
{
    let m0 = Members::empty();
    let m1 = with_member(m0, "speed"@, measurement_slot(wind.speed));
    let m2 = with_member(m1, "gust"@, measurement_slot(wind.gust));
    let m3 = with_member(m2, "direction"@, text_slot(wind.direction));
    assert(!has_key(m0, key));
    one_more_key(m0, "speed"@, measurement_slot(wind.speed), key);
    one_more_key(m1, "gust"@, measurement_slot(wind.gust), key);
    one_more_key(m2, "direction"@, text_slot(wind.direction), key);
    one_more_key(m3, "bearing"@, measurement_slot(wind.bearing), key);
}

/// Conditions without a temperature reading are written without the key
/// `temperature`, and asked for the temperature they answer that it is not
/// available.
pub proof fn no_temperature_no_key(conditions: ConditionsView)
    requires
        conditions.temperature is None,
    ensures
        conditions_members(conditions) matches Some(members) ==> !has_key(
            members,
            "temperature"@,
        ),
        reading_line(reading(conditions.temperature), Field::Temperature) == Err::<
            Seq<char>,
            QueryError,
        >(QueryError::FieldUnavailable(Field::Temperature)),
{
    the_keys_are_apart();
    keys_are_what_is_there(conditions, "temperature"@);
}

/// Conditions without a reading of the relative humidity are written
/// without the key `relativeHumidity`, and asked for the relative humidity
/// they answer that it is not available.
pub proof fn no_relative_humidity_no_key(conditions: ConditionsView)
    requires
        conditions.relative_humidity is None,
    ensures
        conditions_members(conditions) matches Some(members) ==> !has_key(
            members,
            "relativeHumidity"@,
        ),
        reading_line(reading(conditions.relative_humidity), Field::RelativeHumidity) == Err::<
            Seq<char>,
            QueryError,
        >(QueryError::FieldUnavailable(Field::RelativeHumidity)),
{
    the_keys_are_apart();
    keys_are_what_is_there(conditions, "relativeHumidity"@);
}

/// A reading whose value is a text that reads as a number is written with
/// that number as its value, bare as JSON spells it, not as a string.
pub proof fn numeric_text_is_written_as_number(
    measurement: MeasurementView,
    text: Seq<char>,
    number: Seq<char>,
)
    requires
        measurement.value == Some(ScalarView::Text { text, number: Some(number) }),
        is_json_number(number),
    ensures
        scalar_json(measurement.value->0) == number,
        measurement_members(measurement).len() >= 1,
        measurement_members(measurement)[0] == ("value"@, number),
{
}

/// A reading whose value is a text that does not read as a number, or that
/// reads as one for which JSON has no number, is written with that text, as
/// a JSON string, as its value.
pub proof fn other_text_is_written_as_string(
    measurement: MeasurementView,
    text: Seq<char>,
    number: Option<Seq<char>>,
)
    requires
        measurement.value == Some(ScalarView::Text { text, number }),
        number matches Some(spelling) ==> !is_json_number(spelling),
    ensures
        scalar_json(measurement.value->0) == json_literal(text),
        measurement_members(measurement).len() >= 1,
        measurement_members(measurement)[0] == ("value"@, json_literal(text)),
{
}

/// A value is written as a JSON number or as what serde_json makes of a
/// string, whatever spellings it brings along.
pub proof fn value_is_number_or_string(value: ScalarView)
    ensures
        is_json_number(scalar_json(value)) || scalar_json(value) == json_literal(
            crate::serialize::scalar_text(value),
        ),
{
}

/// What has the looks of a number, of a string or of an object is not
/// `null`.
pub proof fn value_text_is_not_null(written: Seq<char>)
    requires
        is_value_text(written),
    ensures
        written != "null"@,
{
    reveal_strlit("null");
    if written == "null"@ {
        assert(written[0] == 'n');
        assert(written.first() == 'n');
    }
}

/// Whether `part` stands somewhere in `whole`, unbroken.
pub open spec fn includes(whole: Seq<char>, part: Seq<char>) -> bool {
    exists|at: int|
        0 <= at && at + part.len() <= whole.len() && #[trigger] whole.subrange(
            at,
            at + part.len(),
        ) == part
}

/// What is said of a fetch that the server did not answer with success
/// includes the address and the status code.
pub proof fn failure_names_address_and_code(url: Seq<char>, code: nat, reason: Seq<char>)
    ensures
        includes(failure_text(url, code, reason), url),
        includes(failure_text(url, code, reason), decimal(code)),
{
    let whole = failure_text(url, code, reason);
    let before_url = "Failed to fetch weather data for "@.len() as int;
    let before_code = before_url + url.len() + " with status: "@.len();
    assert(whole.subrange(before_url, before_url + url.len()) == url);
    assert(whole.subrange(before_code, before_code + decimal(code).len()) == decimal(code));
}

/// Of several date and time records the last one alone decides the instant:
/// whatever stands before it, and whether or not the records agree.
pub proof fn the_last_record_decides(earlier: Seq<DateTimeView>, last: DateTimeView)
    ensures
        last_instant(earlier.push(last)) == last.instant(),
        last_instant(Seq::<DateTimeView>::empty()) is None,
{
}

} // verus!
