//! Event classification and the per-event-kind schema tables.
//!
//! The classifier reads a single discriminator field — the top-level
//! `type` string of station telemetry, else the top-level `event` string
//! of sensor telemetry — by exact, case-sensitive lookup.  It never fails:
//! an unmapped or missing discriminator classifies as `Unknown`.
//!
//! The schema tables are the single authoritative field layout per event
//! kind: station observations read positional slots of the first reading
//! array, sensor reports read named nested keys.

use crate::raw::{resolve, RawValue, Step, StepModel};
use crate::schema::{FieldSpec, FieldSpecModel, FieldType};
use vstd::prelude::*;
use vstd::string::StringExecFns;

verus! {

/// The semantic type of an inbound event.
#[derive(Clone, Copy, Debug, PartialEq, Eq, Structural)]
pub enum EventKind {
    StationObservation,
    AirObservation,
    SkyObservation,
    LightningStrike,
    PrecipitationEvent,
    SensorReport,
    SensorAlert,
    Acknowledgement,
    Unknown,
}

/// The string under a top-level key, if the key resolves to a string.
pub open spec fn str_at(doc: RawValue, key: Seq<char>) -> Option<Seq<char>> {
    match resolve(doc, seq![StepModel::Key(key)]) {
        Some(v) => match v {
            RawValue::Str(s) => Some(s@),
            _ => None,
        },
        None => None,
    }
}

/// The station-telemetry discriminator table.
pub open spec fn station_kind_of(t: Seq<char>) -> EventKind {
    if t == "obs_st"@ {
        EventKind::StationObservation
    } else if t == "obs_air"@ {
        EventKind::AirObservation
    } else if t == "obs_sky"@ {
        EventKind::SkyObservation
    } else if t == "evt_strike"@ {
        EventKind::LightningStrike
    } else if t == "evt_precip"@ {
        EventKind::PrecipitationEvent
    } else if t == "ack"@ {
        EventKind::Acknowledgement
    } else {
        EventKind::Unknown
    }
}

/// The sensor-telemetry discriminator table.
pub open spec fn sensor_kind_of(t: Seq<char>) -> EventKind {
    if t == "THSensor.Report"@ {
        EventKind::SensorReport
    } else if t == "THSensor.Alert"@ {
        EventKind::SensorAlert
    } else {
        EventKind::Unknown
    }
}

/// What `classify` returns: the kind named by the `type` discriminator,
/// else by the `event` discriminator, else `Unknown`.
pub open spec fn classify_spec(doc: RawValue) -> EventKind {
    match str_at(doc, "type"@) {
        Some(t) => station_kind_of(t),
        None => match str_at(doc, "event"@) {
            Some(t) => sensor_kind_of(t),
            None => EventKind::Unknown,
        },
    }
}

fn discriminator_value(doc: &RawValue, key: &String) -> (r: Option<String>)
    ensures
        match r {
            Some(s) => str_at(*doc, key@) == Some(s@),
            None => str_at(*doc, key@) is None,
        },
{
    let mut path: Vec<Step> = Vec::new();
    path.push(Step::Key(key.clone()));
    proof {
        assert(path.deep_view() =~= seq![StepModel::Key(key@)]);
    }
    match crate::raw::resolve_value(doc, &path) {
        Some(v) => match v {
            RawValue::Str(s) => Some(s.clone()),
            _ => None,
        },
        None => None,
    }
}

/// Classifies one inbound document by its discriminator.  Total: every
/// document gets a kind, with `Unknown` for anything unmapped.
pub fn classify(doc: &RawValue) -> (k: EventKind)
    ensures
        k == classify_spec(*doc),
{
    let type_key = "type".to_owned();
    match discriminator_value(doc, &type_key) {
        Some(t) => {
            if t == "obs_st".to_owned() {
                EventKind::StationObservation
            } else if t == "obs_air".to_owned() {
                EventKind::AirObservation
            } else if t == "obs_sky".to_owned() {
                EventKind::SkyObservation
            } else if t == "evt_strike".to_owned() {
                EventKind::LightningStrike
            } else if t == "evt_precip".to_owned() {
                EventKind::PrecipitationEvent
            } else if t == "ack".to_owned() {
                EventKind::Acknowledgement
            } else {
                EventKind::Unknown
            }
        },
        None => {
            let event_key = "event".to_owned();
            match discriminator_value(doc, &event_key) {
                Some(t) => {
                    if t == "THSensor.Report".to_owned() {
                        EventKind::SensorReport
                    } else if t == "THSensor.Alert".to_owned() {
                        EventKind::SensorAlert
                    } else {
                        EventKind::Unknown
                    }
                },
                None => EventKind::Unknown,
            }
        },
    }
}

/// A positional field of the station reading array: slot `i` of the first
/// entry under the top-level `obs` array.
pub open spec fn obs_field(i: int, name: Seq<char>, ty: FieldType) -> FieldSpecModel {
    FieldSpecModel {
        path: seq![StepModel::Key("obs"@), StepModel::Index(0), StepModel::Index(i)],
        name: name,
        required: true,
        ty: ty,
    }
}

/// A required field under a path of one top-level key.
pub open spec fn key_field1(k0: Seq<char>, name: Seq<char>, ty: FieldType) -> FieldSpecModel {
    FieldSpecModel { path: seq![StepModel::Key(k0)], name: name, required: true, ty: ty }
}

/// A required field under a path of two nested keys.
pub open spec fn key_field2(k0: Seq<char>, k1: Seq<char>, name: Seq<char>, ty: FieldType)
    -> FieldSpecModel {
    FieldSpecModel {
        path: seq![StepModel::Key(k0), StepModel::Key(k1)],
        name: name,
        required: true,
        ty: ty,
    }
}

/// A required field under a path of three nested keys.
pub open spec fn key_field3(
    k0: Seq<char>,
    k1: Seq<char>,
    k2: Seq<char>,
    name: Seq<char>,
    ty: FieldType,
) -> FieldSpecModel {
    FieldSpecModel {
        path: seq![StepModel::Key(k0), StepModel::Key(k1), StepModel::Key(k2)],
        name: name,
        required: true,
        ty: ty,
    }
}

fn mk_obs_field(i: usize, name: &str) -> (f: FieldSpec)
    ensures
        f@ == obs_field(i as int, name@, FieldType::Num),
{
    let mut path: Vec<Step> = Vec::new();
    path.push(Step::Key("obs".to_owned()));
    path.push(Step::Index(0));
    path.push(Step::Index(i));
    let f = FieldSpec { path, name: name.to_owned(), required: true, ty: FieldType::Num };
    proof {
        assert(f@.path =~= obs_field(i as int, name@, FieldType::Num).path);
        assert(f@ =~~= obs_field(i as int, name@, FieldType::Num));
    }
    f
}

fn mk_key_field1(k0: &str, name: &str, ty: FieldType) -> (f: FieldSpec)
    ensures
        f@ == key_field1(k0@, name@, ty),
{
    let mut path: Vec<Step> = Vec::new();
    path.push(Step::Key(k0.to_owned()));
    let f = FieldSpec { path, name: name.to_owned(), required: true, ty };
    proof {
        assert(f@.path =~= key_field1(k0@, name@, ty).path);
        assert(f@ =~~= key_field1(k0@, name@, ty));
    }
    f
}

fn mk_key_field2(k0: &str, k1: &str, name: &str, ty: FieldType) -> (f: FieldSpec)
    ensures
        f@ == key_field2(k0@, k1@, name@, ty),
{
    let mut path: Vec<Step> = Vec::new();
    path.push(Step::Key(k0.to_owned()));
    path.push(Step::Key(k1.to_owned()));
    let f = FieldSpec { path, name: name.to_owned(), required: true, ty };
    proof {
        assert(f@.path =~= key_field2(k0@, k1@, name@, ty).path);
        assert(f@ =~~= key_field2(k0@, k1@, name@, ty));
    }
    f
}

fn mk_key_field3(k0: &str, k1: &str, k2: &str, name: &str, ty: FieldType) -> (f: FieldSpec)
    ensures
        f@ == key_field3(k0@, k1@, k2@, name@, ty),
{
    let mut path: Vec<Step> = Vec::new();
    path.push(Step::Key(k0.to_owned()));
    path.push(Step::Key(k1.to_owned()));
    path.push(Step::Key(k2.to_owned()));
    let f = FieldSpec { path, name: name.to_owned(), required: true, ty };
    proof {
        assert(f@.path =~= key_field3(k0@, k1@, k2@, name@, ty).path);
        assert(f@ =~~= key_field3(k0@, k1@, k2@, name@, ty));
    }
    f
}

/// The name of station slot `j` of the schema (slots two and up).
pub open spec fn station_field_name(j: int) -> Seq<char> {
    if j == 2 {
        "wind_lull"@
    } else if j == 3 {
        "wind_avg"@
    } else if j == 4 {
        "wind_gust"@
    } else if j == 5 {
        "wind_dir"@
    } else if j == 6 {
        "wind_interval"@
    } else if j == 7 {
        "pressure"@
    } else if j == 8 {
        "temperature"@
    } else if j == 9 {
        "humidity"@
    } else if j == 10 {
        "luminance"@
    } else if j == 11 {
        "uv"@
    } else if j == 12 {
        "radiation"@
    } else if j == 13 {
        "rain_accum"@
    } else if j == 14 {
        "precip_type"@
    } else if j == 15 {
        "light_dist"@
    } else if j == 16 {
        "light_count"@
    } else if j == 17 {
        "battery"@
    } else if j == 18 {
        "report_int"@
    } else {
        "rain_daily"@
    }
}

/// Rule `j` of the station-observation layout: the device id, then the
/// nineteen positional slots of the reading array.
pub open spec fn station_field_model(j: int) -> FieldSpecModel {
    if j == 0 {
        key_field1("device_id"@, "device_id"@, FieldType::Int)
    } else if j == 1 {
        FieldSpecModel {
            path: seq![StepModel::Key("obs"@), StepModel::Index(0), StepModel::Index(0)],
            name: "time"@,
            required: true,
            ty: FieldType::EpochSec,
        }
    } else {
        obs_field(j - 1, station_field_name(j), FieldType::Num)
    }
}

/// The station-observation field layout.
pub open spec fn station_schema_model() -> Seq<FieldSpecModel> {
    Seq::new(20, |j: int| station_field_model(j))
}

/// Rule `j` of the sensor-report layout: identity and state strings, the
/// millisecond timestamp, and the nested numeric readings.
pub open spec fn sensor_field_model(j: int) -> FieldSpecModel {
    if j == 0 {
        key_field1("deviceId"@, "deviceId"@, FieldType::Str)
    } else if j == 1 {
        key_field1("time"@, "time"@, FieldType::EpochMs)
    } else if j == 2 {
        key_field2("data"@, "temperature"@, "temperature"@, FieldType::Num)
    } else if j == 3 {
        key_field2("data"@, "humidity"@, "humidity"@, FieldType::Num)
    } else if j == 4 {
        key_field2("data"@, "battery"@, "battery"@, FieldType::Int)
    } else if j == 5 {
        key_field3("data"@, "alarm"@, "lowBattery"@, "lowBattery"@, FieldType::Bool)
    } else if j == 6 {
        key_field3("data"@, "loraInfo"@, "signal"@, "signal"@, FieldType::Int)
    } else if j == 7 {
        key_field3("data"@, "loraInfo"@, "gatewayId"@, "gatewayId"@, FieldType::Str)
    } else if j == 8 {
        key_field3("data"@, "loraInfo"@, "netId"@, "netId"@, FieldType::Str)
    } else if j == 9 {
        key_field2("data"@, "mode"@, "mode"@, FieldType::Str)
    } else {
        key_field2("data"@, "state"@, "state"@, FieldType::Str)
    }
}

/// The sensor-report field layout.
pub open spec fn sensor_schema_model() -> Seq<FieldSpecModel> {
    Seq::new(11, |j: int| sensor_field_model(j))
}

/// Builds the station-observation schema table.
pub fn station_schema() -> (s: Vec<FieldSpec>)
    ensures
        s.deep_view() == station_schema_model(),
{
    let mut s: Vec<FieldSpec> = Vec::new();
    s.push(mk_key_field1("device_id", "device_id", FieldType::Int));
    let mut tpath: Vec<Step> = Vec::new();
    tpath.push(Step::Key("obs".to_owned()));
    tpath.push(Step::Index(0));
    tpath.push(Step::Index(0));
    let tfield = FieldSpec {
        path: tpath,
        name: "time".to_owned(),
        required: true,
        ty: FieldType::EpochSec,
    };
    proof {
        assert(tfield@.path =~= station_schema_model()[1].path);
        assert(tfield@ =~~= station_schema_model()[1]);
    }
    s.push(tfield);
    s.push(mk_obs_field(1, "wind_lull"));
    s.push(mk_obs_field(2, "wind_avg"));
    s.push(mk_obs_field(3, "wind_gust"));
    s.push(mk_obs_field(4, "wind_dir"));
    s.push(mk_obs_field(5, "wind_interval"));
    s.push(mk_obs_field(6, "pressure"));
    s.push(mk_obs_field(7, "temperature"));
    s.push(mk_obs_field(8, "humidity"));
    s.push(mk_obs_field(9, "luminance"));
    s.push(mk_obs_field(10, "uv"));
    s.push(mk_obs_field(11, "radiation"));
    s.push(mk_obs_field(12, "rain_accum"));
    s.push(mk_obs_field(13, "precip_type"));
    s.push(mk_obs_field(14, "light_dist"));
    s.push(mk_obs_field(15, "light_count"));
    s.push(mk_obs_field(16, "battery"));
    s.push(mk_obs_field(17, "report_int"));
    s.push(mk_obs_field(18, "rain_daily"));
    proof {
        assert(s.deep_view() =~= station_schema_model());
    }
    s
}

/// Builds the sensor-report schema table.
pub fn sensor_schema() -> (s: Vec<FieldSpec>)
    ensures
        s.deep_view() == sensor_schema_model(),
{
    let mut s: Vec<FieldSpec> = Vec::new();
    s.push(mk_key_field1("deviceId", "deviceId", FieldType::Str));
    s.push(mk_key_field1("time", "time", FieldType::EpochMs));
    s.push(mk_key_field2("data", "temperature", "temperature", FieldType::Num));
    s.push(mk_key_field2("data", "humidity", "humidity", FieldType::Num));
    s.push(mk_key_field2("data", "battery", "battery", FieldType::Int));
    s.push(mk_key_field3("data", "alarm", "lowBattery", "lowBattery", FieldType::Bool));
    s.push(mk_key_field3("data", "loraInfo", "signal", "signal", FieldType::Int));
    s.push(mk_key_field3("data", "loraInfo", "gatewayId", "gatewayId", FieldType::Str));
    s.push(mk_key_field3("data", "loraInfo", "netId", "netId", FieldType::Str));
    s.push(mk_key_field2("data", "mode", "mode", FieldType::Str));
    s.push(mk_key_field2("data", "state", "state", FieldType::Str));
    proof {
        assert(s.deep_view() =~= sensor_schema_model());
    }
    s
}

} // verus!
