use telemetry_core::remote::{access_token_from_document, Api, ApiError, MqttDatabaseLogger,
    WebsocketDatabaseLogger};
use telemetry_core::raw::RawValue;
use telemetry_core::text::i64_to_string;
use telemetry_core::units::{
    celsius_to_fahrenheit, fahrenheit_to_celsius, kilometers_to_miles, meters_per_second_to_mph,
    millimeters_to_inches,
};
use telemetry_core::vpd::vapor_pressure_deficit;

fn obj(fields: Vec<(&str, RawValue)>) -> RawValue {
    RawValue::Obj(fields.into_iter().map(|(k, v)| (k.to_string(), v)).collect())
}

#[test]
fn fahrenheit_exact_values() {
    assert_eq!(celsius_to_fahrenheit(20_000_000), 68_000_000);
    assert_eq!(celsius_to_fahrenheit(0), 32_000_000);
    assert_eq!(celsius_to_fahrenheit(-40_000_000), -40_000_000);
    assert_eq!(fahrenheit_to_celsius(68_000_000), 20_000_000);
    assert_eq!(fahrenheit_to_celsius(32_000_000), 0);
}

#[test]
fn fahrenheit_round_trip_within_one_micro() {
    for c in [-40_000_000i64, -123_457, 0, 1, 123_456, 20_000_000, 99_999_999] {
        let back = fahrenheit_to_celsius(celsius_to_fahrenheit(c));
        assert!((back - c).abs() <= 1, "round trip drifted: {} -> {}", c, back);
    }
}

#[test]
fn linear_conversions_zero_and_exact() {
    assert_eq!(meters_per_second_to_mph(0), 0);
    assert_eq!(millimeters_to_inches(0), 0);
    assert_eq!(kilometers_to_miles(0), 0);
    // 1 m/s = 2.2369 mph, 1 mm = 0.0393701 in, 1 km = 0.621371 mi
    assert_eq!(meters_per_second_to_mph(1_000_000), 2_236_900);
    assert_eq!(millimeters_to_inches(1_000_000), 39_370);
    assert_eq!(kilometers_to_miles(1_000_000), 621_371);
    assert_eq!(meters_per_second_to_mph(5_000_000), 11_184_500);
}

#[test]
fn linear_conversions_monotonic() {
    let samples = [-3_000_000i64, -1, 0, 1, 999_999, 5_000_000];
    for w in samples.windows(2) {
        assert!(meters_per_second_to_mph(w[0]) <= meters_per_second_to_mph(w[1]));
        assert!(millimeters_to_inches(w[0]) <= millimeters_to_inches(w[1]));
        assert!(kilometers_to_miles(w[0]) <= kilometers_to_miles(w[1]));
    }
}

#[test]
fn vpd_singularity_and_values() {
    assert!(vapor_pressure_deficit(-237_300_000, 50_000_000).is_err());
    // total and deterministic away from the singularity
    let a = vapor_pressure_deficit(-237_299_999, 50_000_000).unwrap();
    let b = vapor_pressure_deficit(-237_299_999, 50_000_000).unwrap();
    assert_eq!(a, b);
    // vpd(20 C, 50 %) = 1.168891 kPa at micro scale; true value 1.16889...
    assert_eq!(vapor_pressure_deficit(20_000_000, 50_000_000).unwrap(), 1_168_891);
    // saturated pressure at 0 C is 0.6107 kPa, so vpd(0, 0) is the whole of it
    assert_eq!(vapor_pressure_deficit(0, 0).unwrap(), 610_700);
    // fully saturated air has no deficit
    assert_eq!(vapor_pressure_deficit(20_000_000, 100_000_000).unwrap(), 0);
}

#[test]
fn decimal_rendering() {
    assert_eq!(i64_to_string(0), "0");
    assert_eq!(i64_to_string(42), "42");
    assert_eq!(i64_to_string(-7), "-7");
    assert_eq!(i64_to_string(1_700_000_000), "1700000000");
    assert_eq!(i64_to_string(i64::MIN), "-9223372036854775808");
}

#[test]
fn websocket_listen_url_and_command() {
    let logger = WebsocketDatabaseLogger::new(
        &"wss://ws.example.com/swd/data".to_string(),
        &"tok-abc".to_string(),
        &"12345".to_string(),
    );
    let url = logger.listen_url().expect("valid listen url");
    assert_eq!(url, "wss://ws.example.com/swd/data?token=tok-abc");
    assert_eq!(
        logger.listen_command(),
        "{\"type\":\"listen_start\",\"device_id\": 12345,\"id\":\"vineiq-12345\"}"
    );
}

#[test]
fn websocket_listen_url_rejects_garbage() {
    let logger = WebsocketDatabaseLogger::new(
        &"not a url at all".to_string(),
        &"t".to_string(),
        &"1".to_string(),
    );
    assert!(logger.listen_url().is_err());
}

#[test]
fn mqtt_topic_formation() {
    let logger = MqttDatabaseLogger::new(
        &"broker.example.com".to_string(),
        8003,
        &"home-77".to_string(),
        &"tok-abc".to_string(),
        &"logger".to_string(),
    );
    assert_eq!(logger.topic, "yl-home/home-77/+/report");
    assert_eq!(logger.port, 8003);
}

#[test]
fn sender_conf_string() {
    assert_eq!(
        telemetry_core::remote::sender_conf(&"db.example.com:9009".to_string()),
        "tcp::addr=db.example.com:9009;"
    );
}

#[test]
fn api_request_bodies_and_replies() {
    let api = Api::new(&"https://api.example.com/open/v2/api".to_string(), &"tok".to_string());
    assert_eq!(
        api.device_list_request_body(1712517507811),
        "{\"method\":\"Home.getDeviceList\",\"time\":1712517507811}"
    );
    assert_eq!(
        api.home_info_request_body(7),
        "{\"method\":\"Home.getGeneralInfo\",\"time\":7}"
    );

    let good = obj(vec![
        ("code", RawValue::Str("000000".to_string())),
        ("data", obj(vec![("id", RawValue::Str("home-77".to_string()))])),
    ]);
    assert_eq!(api.home_id_from_document(&good).unwrap(), "home-77");
    let bad = obj(vec![
        ("code", RawValue::Str("010101".to_string())),
        ("data", obj(vec![("id", RawValue::Str("home-77".to_string()))])),
    ]);
    assert_eq!(api.home_id_from_document(&bad).unwrap_err(), ApiError::BadCode);
    let incomplete = obj(vec![("code", RawValue::Str("000000".to_string()))]);
    assert_eq!(api.home_id_from_document(&incomplete).unwrap_err(), ApiError::MissingField);

    let token_reply = obj(vec![("access_token", RawValue::Str("tok-xyz".to_string()))]);
    assert_eq!(access_token_from_document(&token_reply).unwrap(), "tok-xyz");
    assert_eq!(
        access_token_from_document(&obj(vec![])).unwrap_err(),
        ApiError::MissingField
    );
}

#[test]
fn device_list_extraction() {
    let api = Api::new(&"u".to_string(), &"t".to_string());
    let entry = |id: &str, name: &str| {
        obj(vec![
            ("deviceId", RawValue::Str(id.to_string())),
            ("deviceeui", RawValue::Str("eui-1".to_string())),
            ("modelName", RawValue::Str("THSensor".to_string())),
            ("name", RawValue::Str(name.to_string())),
            ("token", RawValue::Str("tok-1".to_string())),
            ("type", RawValue::Str("THSensor".to_string())),
        ])
    };
    let doc = obj(vec![(
        "data",
        obj(vec![(
            "devices",
            RawValue::Arr(vec![entry("d-1", "north"), entry("d-2", "south")]),
        )]),
    )]);
    let devices = api.devices_from_document(&doc);
    assert_eq!(devices.len(), 2);
    assert_eq!(devices[0].id, "d-1");
    assert_eq!(devices[0].name, "north");
    assert_eq!(devices[1].id, "d-2");
    assert_eq!(devices[1].model, "THSensor");
    assert!(api.devices_from_document(&obj(vec![])).is_empty());
}
