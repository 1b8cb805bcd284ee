use telemetry_core::classify::{classify, EventKind};
use telemetry_core::pipeline::{process_message, PipelineError, ProcessOutcome};
use telemetry_core::raw::RawValue;
use telemetry_core::record::ColumnValue;
use telemetry_core::schema::SchemaReason;

/// Micro fixed-point of a real reading.
fn micro(x: f64) -> i64 {
    (x * 1_000_000.0).round() as i64
}

fn obj(fields: Vec<(&str, RawValue)>) -> RawValue {
    RawValue::Obj(fields.into_iter().map(|(k, v)| (k.to_string(), v)).collect())
}

fn station_doc(device_id: i64, readings: Vec<f64>) -> RawValue {
    let slots: Vec<RawValue> = readings.iter().map(|x| RawValue::Num(micro(*x))).collect();
    obj(vec![
        ("type", RawValue::Str("obs_st".to_string())),
        ("device_id", RawValue::Num(device_id * 1_000_000)),
        ("obs", RawValue::Arr(vec![RawValue::Arr(slots)])),
    ])
}

fn p8_readings() -> Vec<f64> {
    vec![
        1_700_000_000.0,
        5.0,
        6.0,
        7.0,
        180.0,
        60.0,
        1013.0,
        20.0,
        50.0,
        100.0,
        3.0,
        0.5,
        0.0,
        0.0,
        0.0,
        0.0,
        95.0,
        60.0,
        0.0,
    ]
}

fn sensor_data(with_humidity: bool) -> RawValue {
    let mut data = vec![
        ("temperature", RawValue::Num(micro(18.4))),
        ("battery", RawValue::Num(4_000_000)),
        ("mode", RawValue::Str("f".to_string())),
        ("state", RawValue::Str("normal".to_string())),
        (
            "alarm",
            obj(vec![("lowBattery", RawValue::Bool(false))]),
        ),
        (
            "loraInfo",
            obj(vec![
                ("gatewayId", RawValue::Str("d88b4c1603046d08".to_string())),
                ("netId", RawValue::Str("010201".to_string())),
                ("signal", RawValue::Num(-67_000_000)),
            ]),
        ),
    ];
    if with_humidity {
        data.insert(1, ("humidity", RawValue::Num(micro(32.5))));
    }
    obj(data)
}

fn sensor_doc(with_humidity: bool) -> RawValue {
    obj(vec![
        ("event", RawValue::Str("THSensor.Report".to_string())),
        ("deviceId", RawValue::Str("d88b4c010008b987".to_string())),
        ("time", RawValue::Num(1_712_517_507_811i64 * 1_000_000)),
        ("data", sensor_data(with_humidity)),
    ])
}

fn column(rec: &telemetry_core::record::NormalizedRecord, name: &str) -> ColumnValue {
    rec.columns
        .iter()
        .find(|(n, _)| n == name)
        .map(|(_, v)| *v)
        .expect("column present")
}

#[test]
fn classify_station_discriminators() {
    let mk = |t: &str| obj(vec![("type", RawValue::Str(t.to_string()))]);
    assert_eq!(classify(&mk("obs_st")), EventKind::StationObservation);
    assert_eq!(classify(&mk("obs_air")), EventKind::AirObservation);
    assert_eq!(classify(&mk("obs_sky")), EventKind::SkyObservation);
    assert_eq!(classify(&mk("evt_strike")), EventKind::LightningStrike);
    assert_eq!(classify(&mk("evt_precip")), EventKind::PrecipitationEvent);
    assert_eq!(classify(&mk("ack")), EventKind::Acknowledgement);
    assert_eq!(classify(&mk("Obs_St")), EventKind::Unknown);
}

#[test]
fn classify_sensor_discriminators() {
    let mk = |t: &str| obj(vec![("event", RawValue::Str(t.to_string()))]);
    assert_eq!(classify(&mk("THSensor.Report")), EventKind::SensorReport);
    assert_eq!(classify(&mk("THSensor.Alert")), EventKind::SensorAlert);
    assert_eq!(classify(&mk("thsensor.report")), EventKind::Unknown);
    assert_eq!(classify(&obj(vec![])), EventKind::Unknown);
}

#[test]
fn station_scenario_full_row() {
    let doc = station_doc(42, p8_readings());
    match process_message(&doc) {
        ProcessOutcome::Append(rec) => {
            assert_eq!(rec.table, "tempest_station");
            assert_eq!(rec.tags, vec![("device_id".to_string(), "42".to_string())]);
            assert_eq!(rec.timestamp_nanos, 1_700_000_000i64 * 1_000_000_000);
            // 20.0 C = 68.0 F
            assert_eq!(column(&rec, "temperature"), ColumnValue::Num(68_000_000));
            // 5.0 m/s = 11.1845 mph
            assert_eq!(column(&rec, "wind_lull"), ColumnValue::Num(11_184_500));
            assert_eq!(column(&rec, "wind_avg"), ColumnValue::Num(13_421_400));
            assert_eq!(column(&rec, "wind_gust"), ColumnValue::Num(15_658_300));
            assert_eq!(column(&rec, "wind_dir"), ColumnValue::Num(180_000_000));
            assert_eq!(column(&rec, "pressure"), ColumnValue::Num(1_013_000_000));
            assert_eq!(column(&rec, "humidity"), ColumnValue::Num(50_000_000));
            assert_eq!(column(&rec, "radiation"), ColumnValue::Num(500_000));
            assert_eq!(column(&rec, "rain_accum"), ColumnValue::Num(0));
            assert_eq!(column(&rec, "battery"), ColumnValue::Num(95_000_000));
            // vpd(20 C, 50 %) in micro-kilopascals
            assert_eq!(column(&rec, "vpd"), ColumnValue::Num(1_168_891));
            assert_eq!(rec.columns.len(), 19);
            let names: Vec<&str> = rec.columns.iter().map(|(n, _)| n.as_str()).collect();
            assert_eq!(
                names,
                vec![
                    "wind_lull",
                    "wind_avg",
                    "wind_gust",
                    "wind_dir",
                    "wind_interval",
                    "pressure",
                    "temperature",
                    "humidity",
                    "luminance",
                    "uv",
                    "radiation",
                    "rain_accum",
                    "precip_type",
                    "light_dist",
                    "light_count",
                    "battery",
                    "report_int",
                    "rain_daily",
                    "vpd"
                ]
            );
        },
        other => panic!("expected a row, got {:?}", other),
    }
}

#[test]
fn sensor_report_full_row() {
    let doc = sensor_doc(true);
    match process_message(&doc) {
        ProcessOutcome::Append(rec) => {
            assert_eq!(rec.table, "yolink");
            assert_eq!(
                rec.tags,
                vec![
                    ("deviceId".to_string(), "d88b4c010008b987".to_string()),
                    ("gatewayId".to_string(), "d88b4c1603046d08".to_string()),
                    ("netId".to_string(), "010201".to_string()),
                    ("mode".to_string(), "f".to_string()),
                    ("state".to_string(), "normal".to_string()),
                ]
            );
            assert_eq!(rec.timestamp_nanos, 1_712_517_507_811i64 * 1_000_000);
            // 18.4 C = 65.12 F
            assert_eq!(column(&rec, "temperature"), ColumnValue::Num(65_120_000));
            assert_eq!(column(&rec, "humidity"), ColumnValue::Num(32_500_000));
            assert_eq!(column(&rec, "vpd"), ColumnValue::Num(1_428_319));
            assert_eq!(column(&rec, "battery"), ColumnValue::Int(4));
            assert_eq!(column(&rec, "lowBattery"), ColumnValue::Bool(false));
            assert_eq!(column(&rec, "signal"), ColumnValue::Int(-67));
        },
        other => panic!("expected a row, got {:?}", other),
    }
}

#[test]
fn sensor_report_missing_humidity_is_schema_error() {
    let doc = sensor_doc(false);
    match process_message(&doc) {
        ProcessOutcome::Rejected(PipelineError::Schema(e)) => {
            assert_eq!(e.field, "humidity");
            assert_eq!(e.reason, SchemaReason::Missing);
        },
        other => panic!("expected a schema rejection, got {:?}", other),
    }
}

#[test]
fn station_missing_device_id_is_schema_error() {
    let doc = obj(vec![
        ("type", RawValue::Str("obs_st".to_string())),
        (
            "obs",
            RawValue::Arr(vec![RawValue::Arr(
                p8_readings().iter().map(|x| RawValue::Num(micro(*x))).collect(),
            )]),
        ),
    ]);
    match process_message(&doc) {
        ProcessOutcome::Rejected(PipelineError::Schema(e)) => {
            assert_eq!(e.field, "device_id");
            assert_eq!(e.reason, SchemaReason::Missing);
        },
        other => panic!("expected a schema rejection, got {:?}", other),
    }
}

#[test]
fn station_mistyped_reading_is_schema_error() {
    let mut readings: Vec<RawValue> =
        p8_readings().iter().map(|x| RawValue::Num(micro(*x))).collect();
    readings[8] = RawValue::Str("wet".to_string());
    let doc = obj(vec![
        ("type", RawValue::Str("obs_st".to_string())),
        ("device_id", RawValue::Num(42_000_000)),
        ("obs", RawValue::Arr(vec![RawValue::Arr(readings)])),
    ]);
    match process_message(&doc) {
        ProcessOutcome::Rejected(PipelineError::Schema(e)) => {
            assert_eq!(e.field, "humidity");
            assert_eq!(e.reason, SchemaReason::Mistyped);
        },
        other => panic!("expected a schema rejection, got {:?}", other),
    }
}

#[test]
fn vpd_singularity_is_domain_error() {
    let mut readings = p8_readings();
    readings[7] = -237.3;
    let doc = station_doc(42, readings);
    match process_message(&doc) {
        ProcessOutcome::Rejected(PipelineError::Domain(_)) => {},
        other => panic!("expected a domain rejection, got {:?}", other),
    }
}

#[test]
fn unknown_discriminator_is_skipped() {
    let doc = obj(vec![("type", RawValue::Str("obs_mystery".to_string()))]);
    match process_message(&doc) {
        ProcessOutcome::Skipped(kind) => assert_eq!(kind, EventKind::Unknown),
        other => panic!("expected a skip, got {:?}", other),
    }
    let doc2 = obj(vec![("weather", RawValue::Bool(true))]);
    match process_message(&doc2) {
        ProcessOutcome::Skipped(kind) => assert_eq!(kind, EventKind::Unknown),
        other => panic!("expected a skip, got {:?}", other),
    }
}

#[test]
fn acknowledgement_is_skipped() {
    let doc = obj(vec![("type", RawValue::Str("ack".to_string()))]);
    match process_message(&doc) {
        ProcessOutcome::Skipped(kind) => assert_eq!(kind, EventKind::Acknowledgement),
        other => panic!("expected a skip, got {:?}", other),
    }
}

#[test]
fn station_timestamp_out_of_range_is_schema_error() {
    let mut readings = p8_readings();
    // a second count whose nanosecond scaling exceeds the representable range
    readings[0] = 9_223_372_037.0;
    let doc = station_doc(42, readings);
    match process_message(&doc) {
        ProcessOutcome::Rejected(PipelineError::Schema(e)) => {
            assert_eq!(e.field, "time");
            assert_eq!(e.reason, SchemaReason::Mistyped);
        },
        other => panic!("expected a schema rejection, got {:?}", other),
    }
}

#[test]
fn station_timestamp_truncates_to_whole_seconds() {
    let mut readings = p8_readings();
    readings[0] = 1_700_000_000.5;
    let doc = station_doc(42, readings);
    match process_message(&doc) {
        ProcessOutcome::Append(rec) => {
            assert_eq!(rec.timestamp_nanos, 1_700_000_000i64 * 1_000_000_000);
        },
        other => panic!("expected a row, got {:?}", other),
    }
}

#[test]
fn extraction_reports_first_failure_in_schema_order() {
    // both the device id and the reading array are missing; the device id
    // rule comes first in the schema, so it is the one reported
    let doc = obj(vec![("type", RawValue::Str("obs_st".to_string()))]);
    match process_message(&doc) {
        ProcessOutcome::Rejected(PipelineError::Schema(e)) => {
            assert_eq!(e.field, "device_id");
            assert_eq!(e.reason, SchemaReason::Missing);
        },
        other => panic!("expected a schema rejection, got {:?}", other),
    }
}

#[test]
fn sensor_humidity_out_of_computable_range_is_domain_error() {
    let mut doc_fields = vec![
        ("event", RawValue::Str("THSensor.Report".to_string())),
        ("deviceId", RawValue::Str("d-1".to_string())),
        ("time", RawValue::Num(1_700_000_000_000i64 * 1_000_000)),
    ];
    let data = obj(vec![
        ("temperature", RawValue::Num(18_400_000)),
        ("humidity", RawValue::Num(2_000_000_000)),
        ("battery", RawValue::Num(4_000_000)),
        ("mode", RawValue::Str("f".to_string())),
        ("state", RawValue::Str("normal".to_string())),
        ("alarm", obj(vec![("lowBattery", RawValue::Bool(false))])),
        (
            "loraInfo",
            obj(vec![
                ("gatewayId", RawValue::Str("g".to_string())),
                ("netId", RawValue::Str("n".to_string())),
                ("signal", RawValue::Num(-67_000_000)),
            ]),
        ),
    ]);
    doc_fields.push(("data", data));
    let doc = obj(doc_fields);
    match process_message(&doc) {
        ProcessOutcome::Rejected(PipelineError::Domain(_)) => {},
        other => panic!("expected a domain rejection, got {:?}", other),
    }
}

#[test]
fn two_devices_two_independent_rows() {
    let d1 = station_doc(42, p8_readings());
    let mut readings2 = p8_readings();
    readings2[7] = 25.0;
    let d2 = station_doc(43, readings2);
    let r1 = match process_message(&d1) {
        ProcessOutcome::Append(rec) => rec,
        other => panic!("expected a row, got {:?}", other),
    };
    let r2 = match process_message(&d2) {
        ProcessOutcome::Append(rec) => rec,
        other => panic!("expected a row, got {:?}", other),
    };
    assert_eq!(r1.tags[0].1, "42");
    assert_eq!(r2.tags[0].1, "43");
    assert_ne!(r1.tags[0].1, r2.tags[0].1);
    assert_eq!(column(&r1, "temperature"), ColumnValue::Num(68_000_000));
    assert_eq!(column(&r2, "temperature"), ColumnValue::Num(77_000_000));
}
