use citypage_weather::json::ObjectWriter;
use citypage_weather::json::string_json;
use citypage_weather::number::reads_as_json_number;
use citypage_weather::weather_data::{CurrentConditions, Measurement, Stringf64, Wind};

fn text_value(text: &str) -> Stringf64 {
    let number = text.parse::<f64>().ok().and_then(|n| serde_json::to_string(&n).ok());
    Stringf64::Text { text: text.to_string(), number }
}

fn number_value(number: f64) -> Stringf64 {
    Stringf64::Number { plain: number.to_string(), json: serde_json::to_string(&number).ok() }
}

fn measurement(value: Option<&str>, unit_type: Option<&str>, units: Option<&str>) -> Measurement {
    Measurement {
        value: value.map(text_value),
        unit_type: unit_type.map(|s| s.to_string()),
        units: units.map(|s| s.to_string()),
    }
}

fn no_conditions() -> CurrentConditions {
    CurrentConditions {
        temperature: None,
        dewpoint: None,
        humidex: None,
        pressure: None,
        visibility: None,
        wind_chill: None,
        relative_humidity: None,
        wind: None,
        date_time_xml: vec![],
        timestamp: None,
    }
}

fn keys_of(json: &str) -> Vec<String> {
    let parsed: serde_json::Value = serde_json::from_str(json).unwrap();
    parsed.as_object().unwrap().keys().cloned().collect()
}

#[test]
fn object_without_members() {
    assert_eq!(ObjectWriter::new().finish(), "{}");
}

#[test]
fn object_with_one_member() {
    assert_eq!(ObjectWriter::new().member("a", "1").finish(), "{\"a\":1}");
}

#[test]
fn object_with_members_in_order() {
    let text = ObjectWriter::new()
        .member("b", "\"x\"")
        .member("a", "2")
        .member("c", "{}")
        .finish();
    assert_eq!(text, "{\"b\":\"x\",\"a\":2,\"c\":{}}");
}

#[test]
fn member_without_value_is_left_out() {
    let text = ObjectWriter::new()
        .optional_member("a", None)
        .optional_member("b", Some("1".to_string()))
        .optional_member("c", None)
        .optional_member("d", Some("2".to_string()))
        .optional_member("e", None)
        .finish();
    assert_eq!(text, "{\"b\":1,\"d\":2}");
}

#[test]
fn plain_string_as_json() {
    assert_eq!(string_json("M"), "\"M\"");
    assert_eq!(string_json(""), "\"\"");
    assert_eq!(string_json("km/h"), "\"km/h\"");
}

#[test]
fn string_with_escapes_as_json() {
    assert_eq!(string_json("a\"b"), "\"a\\\"b\"");
    assert_eq!(string_json("a\\b"), "\"a\\\\b\"");
    assert_eq!(string_json("a\nb\tc"), "\"a\\nb\\tc\"");
    assert_eq!(string_json("\u{1}"), "\"\\u0001\"");
    assert_eq!(string_json("\u{b0}C"), "\"\u{b0}C\"");
}

#[test]
fn numeric_text_becomes_a_json_number() {
    let value = text_value("21.5");
    let json = value.to_json();
    assert_eq!(json, "21.5");
    let parsed: serde_json::Value = serde_json::from_str(&json).unwrap();
    assert!(parsed.is_number());
    assert_eq!(parsed.as_f64(), Some(21.5));
}

#[test]
fn numeric_text_in_other_spellings() {
    assert_eq!(text_value("-3.2").to_json(), "-3.2");
    assert_eq!(text_value("21.50").to_json(), "21.5");
    assert_eq!(text_value("7").to_json(), "7.0");
    assert_eq!(text_value("+5").to_json(), "5.0");
    assert_eq!(text_value("1e3").to_json(), "1000.0");
    assert_eq!(text_value(".5").to_json(), "0.5");
}

#[test]
fn text_that_is_no_number_becomes_a_json_string() {
    let value = text_value("M");
    let json = value.to_json();
    assert_eq!(json, "\"M\"");
    let parsed: serde_json::Value = serde_json::from_str(&json).unwrap();
    assert_eq!(parsed.as_str(), Some("M"));
}

#[test]
fn text_that_only_looks_like_a_number() {
    assert_eq!(text_value("21,5").to_json(), "\"21,5\"");
    assert_eq!(text_value("").to_json(), "\"\"");
    assert_eq!(text_value(" 21.5").to_json(), "\" 21.5\"");
    assert_eq!(text_value("N/A").to_json(), "\"N/A\"");
}

#[test]
fn number_as_json_and_on_its_own() {
    let value = number_value(21.0);
    assert_eq!(value.to_json(), "21.0");
    assert_eq!(value.to_string(), "21");
    let value = number_value(-3.2);
    assert_eq!(value.to_json(), "-3.2");
    assert_eq!(value.to_string(), "-3.2");
}

#[test]
fn text_on_its_own_is_verbatim() {
    assert_eq!(text_value("21.50").to_string(), "21.50");
    assert_eq!(text_value("M").to_string(), "M");
    assert_eq!(text_value("say \"hi\"").to_string(), "say \"hi\"");
}

#[test]
fn full_measurement_as_json() {
    let m = measurement(Some("21.5"), Some("metric"), Some("C"));
    assert_eq!(m.to_json(), "{\"value\":21.5,\"unitType\":\"metric\",\"units\":\"C\"}");
}

#[test]
fn measurement_with_text_value_as_json() {
    let m = measurement(Some("M"), Some("metric"), Some("C"));
    assert_eq!(m.to_json(), "{\"value\":\"M\",\"unitType\":\"metric\",\"units\":\"C\"}");
}

#[test]
fn measurement_without_value_as_json() {
    let m = measurement(None, Some("metric"), Some("kPa"));
    assert_eq!(m.to_json(), "{\"unitType\":\"metric\",\"units\":\"kPa\"}");
    assert!(!m.to_json().contains("null"));
}

#[test]
fn measurement_with_nothing_as_json() {
    assert_eq!(measurement(None, None, None).to_json(), "{}");
}

#[test]
fn measurement_parts_alone() {
    assert_eq!(measurement(Some("5"), None, None).to_json(), "{\"value\":5.0}");
    assert_eq!(measurement(None, Some("m"), None).to_json(), "{\"unitType\":\"m\"}");
    assert_eq!(measurement(None, None, Some("%")).to_json(), "{\"units\":\"%\"}");
}

#[test]
fn wind_as_json() {
    let wind = Wind {
        speed: Some(measurement(Some("15"), Some("metric"), Some("km/h"))),
        gust: Some(measurement(None, Some("metric"), Some("km/h"))),
        direction: Some("NW".to_string()),
        bearing: Some(measurement(Some("315.0"), None, Some("degrees"))),
    };
    assert_eq!(
        wind.to_json(),
        "{\"speed\":{\"value\":15.0,\"unitType\":\"metric\",\"units\":\"km/h\"},\
         \"gust\":{\"unitType\":\"metric\",\"units\":\"km/h\"},\
         \"direction\":\"NW\",\
         \"bearing\":{\"value\":315.0,\"units\":\"degrees\"}}"
    );
}

#[test]
fn wind_with_nothing_as_json() {
    let wind = Wind { speed: None, gust: None, direction: None, bearing: None };
    assert_eq!(wind.to_json(), "{}");
    let wind = Wind { speed: None, gust: None, direction: Some("N".to_string()), bearing: None };
    assert_eq!(wind.to_json(), "{\"direction\":\"N\"}");
}

#[test]
fn conditions_with_nothing_as_json() {
    assert_eq!(no_conditions().to_json().unwrap(), "{}");
}

#[test]
fn full_conditions_as_json() {
    let conditions = CurrentConditions {
        temperature: Some(measurement(Some("-3.2"), Some("metric"), Some("C"))),
        dewpoint: Some(measurement(Some("-7.1"), Some("metric"), Some("C"))),
        humidex: Some(measurement(None, Some("metric"), None)),
        pressure: Some(measurement(Some("101.3"), Some("metric"), Some("kPa"))),
        visibility: Some(measurement(Some("24.1"), Some("metric"), Some("km"))),
        wind_chill: Some(measurement(Some("-9"), Some("metric"), None)),
        relative_humidity: Some(measurement(Some("74"), None, Some("%"))),
        wind: Some(Wind {
            speed: Some(measurement(Some("15"), Some("metric"), Some("km/h"))),
            gust: None,
            direction: Some("NW".to_string()),
            bearing: None,
        }),
        date_time_xml: vec![],
        timestamp: Some(1_705_347_000),
    };
    assert_eq!(
        conditions.to_json().unwrap(),
        "{\"temperature\":{\"value\":-3.2,\"unitType\":\"metric\",\"units\":\"C\"},\
         \"dewpoint\":{\"value\":-7.1,\"unitType\":\"metric\",\"units\":\"C\"},\
         \"humidex\":{\"unitType\":\"metric\"},\
         \"pressure\":{\"value\":101.3,\"unitType\":\"metric\",\"units\":\"kPa\"},\
         \"visibility\":{\"value\":24.1,\"unitType\":\"metric\",\"units\":\"km\"},\
         \"windChill\":{\"value\":-9.0,\"unitType\":\"metric\"},\
         \"relativeHumidity\":{\"value\":74.0,\"units\":\"%\"},\
         \"wind\":{\"speed\":{\"value\":15.0,\"unitType\":\"metric\",\"units\":\"km/h\"},\"direction\":\"NW\"},\
         \"timestamp\":\"2024-01-15T19:30:00Z\"}"
    );
}

#[test]
fn no_temperature_no_temperature_key() {
    let mut conditions = no_conditions();
    conditions.dewpoint = Some(measurement(Some("1"), None, None));
    conditions.relative_humidity = Some(measurement(Some("74"), None, Some("%")));
    let json = conditions.to_json().unwrap();
    let keys = keys_of(&json);
    assert!(!keys.contains(&"temperature".to_string()));
    assert_eq!(json, "{\"dewpoint\":{\"value\":1.0},\"relativeHumidity\":{\"value\":74.0,\"units\":\"%\"}}");
}

#[test]
fn keys_read_back_are_the_readings_that_are_there() {
    let mut conditions = no_conditions();
    conditions.pressure = Some(measurement(Some("101.3"), None, None));
    conditions.wind = Some(Wind { speed: None, gust: None, direction: None, bearing: None });
    conditions.timestamp = Some(0);
    let mut keys = keys_of(&conditions.to_json().unwrap());
    keys.sort();
    assert_eq!(keys, vec!["pressure", "timestamp", "wind"]);
}

#[test]
fn each_reading_alone_gives_its_key_alone() {
    let names = [
        "temperature",
        "dewpoint",
        "humidex",
        "pressure",
        "visibility",
        "windChill",
        "relativeHumidity",
    ];
    for (i, name) in names.iter().enumerate() {
        let mut conditions = no_conditions();
        let m = Some(measurement(Some("1.5"), None, None));
        match i {
            0 => conditions.temperature = m,
            1 => conditions.dewpoint = m,
            2 => conditions.humidex = m,
            3 => conditions.pressure = m,
            4 => conditions.visibility = m,
            5 => conditions.wind_chill = m,
            _ => conditions.relative_humidity = m,
        }
        assert_eq!(conditions.to_json().unwrap(), format!("{{\"{}\":{{\"value\":1.5}}}}", name));
    }
}

#[test]
fn values_read_back_as_they_were_written() {
    let mut conditions = no_conditions();
    conditions.temperature = Some(measurement(Some("21.5"), Some("metric"), Some("C")));
    conditions.humidex = Some(measurement(Some("M"), None, None));
    let json = conditions.to_json().unwrap();
    let parsed: serde_json::Value = serde_json::from_str(&json).unwrap();
    assert_eq!(parsed["temperature"]["value"].as_f64(), Some(21.5));
    assert_eq!(parsed["temperature"]["unitType"].as_str(), Some("metric"));
    assert_eq!(parsed["temperature"]["units"].as_str(), Some("C"));
    assert_eq!(parsed["humidex"]["value"].as_str(), Some("M"));
    assert!(parsed.get("dewpoint").is_none());
    assert!(parsed["humidex"].get("units").is_none());
}

#[test]
fn date_and_time_records_are_not_written() {
    let mut conditions = no_conditions();
    conditions.date_time_xml = vec![citypage_weather::weather_data::DateTimeXML {
        utc_offset: 0,
        zone: "UTC".to_string(),
        year: 2024,
        month: 1,
        day: 15,
        hour: 19,
        minute: 30,
        text_summary: "Monday".to_string(),
    }];
    assert_eq!(conditions.to_json().unwrap(), "{}");
}

#[test]
fn conditions_with_a_timestamp_out_of_range() {
    let mut conditions = no_conditions();
    conditions.timestamp = Some(i64::MAX);
    assert!(conditions.to_json().is_err());
}

#[test]
fn text_that_reads_as_no_finite_number_is_written_as_a_string() {
    assert_eq!(text_value("NaN").to_json(), "\"NaN\"");
    assert_eq!(text_value("inf").to_json(), "\"inf\"");
    assert_eq!(text_value("-infinity").to_json(), "\"-infinity\"");
    assert_eq!(text_value("1e999").to_json(), "\"1e999\"");
    assert_eq!(text_value("NaN").to_string(), "NaN");
    let m = measurement(Some("infinity"), None, Some("km"));
    assert_eq!(m.to_json(), "{\"value\":\"infinity\",\"units\":\"km\"}");
    let parsed: serde_json::Value = serde_json::from_str(&m.to_json()).unwrap();
    assert!(parsed["value"].is_string());
}

#[test]
fn number_without_a_json_number_is_written_as_a_string() {
    assert_eq!(number_value(f64::NAN).to_json(), "\"NaN\"");
    assert_eq!(number_value(f64::INFINITY).to_json(), "\"inf\"");
    assert_eq!(number_value(f64::NEG_INFINITY).to_json(), "\"-inf\"");
    let none = Stringf64::Number { plain: "12".to_string(), json: None };
    assert_eq!(none.to_json(), "\"12\"");
}

#[test]
fn a_spelling_that_is_no_json_number_counts_for_nothing() {
    for spelling in ["null", "", "true", "{\"a\":1}", "1,\"x\":2", "01", "+5", "1.", ".5", "\"7\""] {
        let text = Stringf64::Text { text: "seven".to_string(), number: Some(spelling.to_string()) };
        assert_eq!(text.to_json(), "\"seven\"");
        let number =
            Stringf64::Number { plain: "7".to_string(), json: Some(spelling.to_string()) };
        assert_eq!(number.to_json(), "\"7\"");
    }
}

#[test]
fn json_numbers() {
    for number in [
        "0", "-0", "7", "10", "-3.2", "21.5", "0.5", "1e5", "1E5", "1e+5", "1e-5", "1.0e10",
        "-12.34E-56", "1000.0", "1e21", "5e-324", "1.7976931348623157e308",
    ] {
        assert!(reads_as_json_number(number), "{}", number);
        assert!(serde_json::from_str::<serde_json::Value>(number).unwrap().is_number());
    }
}

#[test]
fn texts_that_are_no_json_numbers() {
    for text in [
        "", "-", "+5", "01", "-01", "00", ".5", "5.", "1.e5", "1e", "1e+", "1e-", "e5", "1.5.2",
        "--1", "1-", " 1", "1 ", "0x10", "null", "NaN", "inf", "Infinity", "true", "1,5", "1_000",
        "\u{663}", "1\u{663}", "\"1\"", "1e5.5", "1ee5", "-.5",
    ] {
        assert!(!reads_as_json_number(text), "{:?}", text);
    }
}

#[test]
fn json_number_agrees_with_serde_json_on_what_it_writes() {
    for number in [0.0, -0.0, 1.0, -3.2, 21.5, 1e21, 1e-7, 123456789.125, f64::MAX, f64::MIN_POSITIVE] {
        let written = serde_json::to_string(&number).unwrap();
        assert!(reads_as_json_number(&written), "{}", written);
    }
    for number in [f64::NAN, f64::INFINITY, f64::NEG_INFINITY] {
        let written = serde_json::to_string(&number).unwrap();
        assert!(!reads_as_json_number(&written), "{}", written);
    }
}

#[test]
fn conditions_read_back_equal_what_serde_json_builds() {
    let mut conditions = no_conditions();
    conditions.temperature = Some(measurement(Some("-3.2"), Some("metric"), Some("C")));
    conditions.wind = Some(Wind {
        speed: Some(measurement(Some("15"), None, Some("km/h"))),
        gust: None,
        direction: Some("N\"W".to_string()),
        bearing: None,
    });
    conditions.timestamp = Some(1_705_347_000);

    let mut temperature = serde_json::Map::new();
    temperature.insert("value".to_string(), serde_json::Value::from(-3.2));
    temperature.insert("unitType".to_string(), serde_json::Value::from("metric"));
    temperature.insert("units".to_string(), serde_json::Value::from("C"));
    let mut speed = serde_json::Map::new();
    speed.insert("value".to_string(), serde_json::Value::from(15.0));
    speed.insert("units".to_string(), serde_json::Value::from("km/h"));
    let mut wind = serde_json::Map::new();
    wind.insert("speed".to_string(), serde_json::Value::Object(speed));
    wind.insert("direction".to_string(), serde_json::Value::from("N\"W"));
    let mut expected = serde_json::Map::new();
    expected.insert("temperature".to_string(), serde_json::Value::Object(temperature));
    expected.insert("wind".to_string(), serde_json::Value::Object(wind));
    expected.insert("timestamp".to_string(), serde_json::Value::from("2024-01-15T19:30:00Z"));

    let parsed: serde_json::Value = serde_json::from_str(&conditions.to_json().unwrap()).unwrap();
    assert_eq!(parsed, serde_json::Value::Object(expected));
}
