use citypage_weather::error::MappingError;
use citypage_weather::serialize::instant_json;
use citypage_weather::weather_data::{CurrentConditions, DateTimeXML, WeatherData};

fn record(utc_offset: i32, zone: &str, ymd: (i32, u32, u32), hm: (u32, u32)) -> DateTimeXML {
    DateTimeXML {
        utc_offset,
        zone: zone.to_string(),
        year: ymd.0,
        month: ymd.1,
        day: ymd.2,
        hour: hm.0,
        minute: hm.1,
        text_summary: "some day at some time".to_string(),
    }
}

fn conditions(records: Vec<DateTimeXML>) -> CurrentConditions {
    CurrentConditions {
        temperature: None,
        dewpoint: None,
        humidex: None,
        pressure: None,
        visibility: None,
        wind_chill: None,
        relative_humidity: None,
        wind: None,
        date_time_xml: records,
        timestamp: None,
    }
}

fn timestamp_of(records: Vec<DateTimeXML>) -> Result<Option<i64>, MappingError> {
    WeatherData::from_conditions(conditions(records)).map(|w| w.current_conditions().timestamp)
}

const JAN_15_2024_19_30_UTC: i64 = 1_705_347_000;

#[test]
fn instant_of_a_utc_record() {
    let utc = record(0, "UTC", (2024, 1, 15), (19, 30));
    assert_eq!(utc.instant(), Some(JAN_15_2024_19_30_UTC));
}

#[test]
fn instant_of_a_record_west_of_utc() {
    let est = record(-5, "EST", (2024, 1, 15), (14, 30));
    assert_eq!(est.instant(), Some(JAN_15_2024_19_30_UTC));
}

#[test]
fn instant_of_a_record_east_of_utc() {
    let cet = record(1, "CET", (2024, 1, 15), (20, 30));
    assert_eq!(cet.instant(), Some(JAN_15_2024_19_30_UTC));
}

#[test]
fn instant_at_the_epoch() {
    assert_eq!(record(0, "UTC", (1970, 1, 1), (0, 0)).instant(), Some(0));
    assert_eq!(record(0, "UTC", (1970, 1, 1), (0, 1)).instant(), Some(60));
    assert_eq!(record(0, "UTC", (1969, 12, 31), (23, 59)).instant(), Some(-60));
    assert_eq!(record(1, "CET", (1970, 1, 1), (0, 0)).instant(), Some(-3600));
}

#[test]
fn two_records_of_one_instant_est_last() {
    let utc = record(0, "UTC", (2024, 1, 15), (19, 30));
    let est = record(-5, "EST", (2024, 1, 15), (14, 30));
    assert_eq!(timestamp_of(vec![utc, est]), Ok(Some(JAN_15_2024_19_30_UTC)));
}

#[test]
fn two_records_of_one_instant_utc_last() {
    let utc = record(0, "UTC", (2024, 1, 15), (19, 30));
    let est = record(-5, "EST", (2024, 1, 15), (14, 30));
    assert_eq!(timestamp_of(vec![est, utc]), Ok(Some(JAN_15_2024_19_30_UTC)));
}

#[test]
fn records_that_disagree_last_wins() {
    let early = record(0, "UTC", (2024, 1, 15), (19, 30));
    let late = record(0, "UTC", (2024, 1, 16), (8, 0));
    let late_instant = JAN_15_2024_19_30_UTC + 12 * 3600 + 30 * 60;
    assert_eq!(timestamp_of(vec![early.clone(), late.clone()]), Ok(Some(late_instant)));
    assert_eq!(timestamp_of(vec![late.clone(), early.clone()]), Ok(Some(JAN_15_2024_19_30_UTC)));
    assert_eq!(
        timestamp_of(vec![late.clone(), early, late]),
        Ok(Some(late_instant))
    );
}

#[test]
fn no_records_no_timestamp() {
    assert_eq!(timestamp_of(vec![]), Ok(None));
}

#[test]
fn a_timestamp_brought_along_counts_for_nothing() {
    let mut given = conditions(vec![]);
    given.timestamp = Some(42);
    let weather = WeatherData::from_conditions(given).unwrap();
    assert_eq!(weather.current_conditions().timestamp, None);

    let mut given = conditions(vec![record(0, "UTC", (2024, 1, 15), (19, 30))]);
    given.timestamp = Some(42);
    let weather = WeatherData::from_conditions(given).unwrap();
    assert_eq!(weather.current_conditions().timestamp, Some(JAN_15_2024_19_30_UTC));
}

#[test]
fn records_are_dropped() {
    let weather =
        WeatherData::from_conditions(conditions(vec![record(0, "UTC", (2024, 1, 15), (19, 30))])).unwrap();
    assert!(weather.current_conditions().date_time_xml.is_empty());
}

#[test]
fn month_thirteen_is_fatal() {
    let bad = record(0, "UTC", (2024, 13, 15), (19, 30));
    assert_eq!(bad.instant(), None);
    assert_eq!(timestamp_of(vec![bad]), Err(MappingError::InvalidTimestamp));
}

#[test]
fn a_bad_record_is_fatal_wherever_it_stands() {
    let good = record(0, "UTC", (2024, 1, 15), (19, 30));
    let bad = record(0, "UTC", (2024, 0, 15), (19, 30));
    assert_eq!(
        timestamp_of(vec![bad.clone(), good.clone()]),
        Err(MappingError::InvalidTimestamp)
    );
    assert_eq!(
        timestamp_of(vec![good.clone(), bad.clone()]),
        Err(MappingError::InvalidTimestamp)
    );
    assert_eq!(
        timestamp_of(vec![good.clone(), bad, good]),
        Err(MappingError::InvalidTimestamp)
    );
}

#[test]
fn days_that_do_not_exist() {
    assert_eq!(record(0, "UTC", (2024, 4, 31), (0, 0)).instant(), None);
    assert_eq!(record(0, "UTC", (2023, 2, 29), (0, 0)).instant(), None);
    assert_eq!(record(0, "UTC", (2024, 1, 0), (0, 0)).instant(), None);
    assert_eq!(record(0, "UTC", (2024, 1, 32), (0, 0)).instant(), None);
    assert_eq!(
        record(0, "UTC", (2024, 2, 29), (0, 0)).instant(),
        Some(1_709_164_800)
    );
}

#[test]
fn times_that_do_not_exist() {
    assert_eq!(record(0, "UTC", (2024, 1, 15), (24, 0)).instant(), None);
    assert_eq!(record(0, "UTC", (2024, 1, 15), (0, 60)).instant(), None);
    assert_eq!(
        record(0, "UTC", (2024, 1, 15), (23, 59)).instant(),
        Some(JAN_15_2024_19_30_UTC + 4 * 3600 + 29 * 60)
    );
}

#[test]
fn offsets_of_a_day_or_more() {
    assert_eq!(record(24, "?", (2024, 1, 15), (0, 0)).instant(), None);
    assert_eq!(record(-24, "?", (2024, 1, 15), (0, 0)).instant(), None);
    assert_eq!(record(i32::MAX, "?", (2024, 1, 15), (0, 0)).instant(), None);
    assert_eq!(record(i32::MIN, "?", (2024, 1, 15), (0, 0)).instant(), None);
    assert_eq!(record(600_000, "?", (2024, 1, 15), (0, 0)).instant(), None);
    assert_eq!(
        record(23, "?", (2024, 1, 16), (18, 30)).instant(),
        Some(JAN_15_2024_19_30_UTC)
    );
    assert_eq!(
        record(-23, "?", (2024, 1, 14), (20, 30)).instant(),
        Some(JAN_15_2024_19_30_UTC)
    );
}

#[test]
fn years_out_of_reach() {
    assert_eq!(record(0, "UTC", (400_000, 1, 1), (0, 0)).instant(), None);
    assert_eq!(record(0, "UTC", (-400_000, 1, 1), (0, 0)).instant(), None);
}

#[test]
fn invalid_timestamp_in_words() {
    assert_eq!(MappingError::InvalidTimestamp.message(), "No such local time");
}

#[test]
fn instant_as_json() {
    assert_eq!(
        instant_json(JAN_15_2024_19_30_UTC).unwrap(),
        "\"2024-01-15T19:30:00Z\""
    );
    assert_eq!(instant_json(0).unwrap(), "\"1970-01-01T00:00:00Z\"");
    assert_eq!(instant_json(-60).unwrap(), "\"1969-12-31T23:59:00Z\"");
}

#[test]
fn instant_as_json_agrees_with_chrono() {
    let at = chrono::DateTime::from_timestamp(JAN_15_2024_19_30_UTC, 0).unwrap();
    assert_eq!(
        instant_json(JAN_15_2024_19_30_UTC).unwrap(),
        serde_json::to_string(&at).unwrap()
    );
}

#[test]
fn instant_without_a_date() {
    assert!(instant_json(i64::MAX).is_err());
    assert!(instant_json(i64::MIN).is_err());
}

#[test]
fn timestamp_in_the_conditions_json() {
    let utc = record(0, "UTC", (2024, 1, 15), (19, 30));
    let est = record(-5, "EST", (2024, 1, 15), (14, 30));
    let weather = WeatherData::from_conditions(conditions(vec![utc, est])).unwrap();
    assert_eq!(
        weather.to_json().unwrap(),
        "{\"timestamp\":\"2024-01-15T19:30:00Z\"}"
    );
}
