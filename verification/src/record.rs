//! The normalized output row and its builders.
//!
//! A record carries identity tags, named metric columns, and one
//! nanosecond timestamp.  One row is built per event, fully, before it is
//! handed to the sink; a derived metric is always computed from the raw
//! (unconverted) readings.  Metric names within one record are unique.

use crate::schema::{FieldValue, FieldValueModel};
use crate::text::{i64_to_string, spec_dec};
use crate::units::{
    celsius_to_fahrenheit, in_range, kilometers_to_miles, meters_per_second_to_mph,
    millimeters_to_inches, spec_celsius_to_fahrenheit, spec_scaled,
};
use crate::vpd::{spec_vpd, vapor_pressure_deficit, DomainError, VPD_SINGULARITY};
use vstd::prelude::*;

verus! {

/// One metric column value: a micro fixed-point reading, a whole number,
/// or a flag.
#[derive(Clone, Copy, Debug, PartialEq, Eq, Structural)]
pub enum ColumnValue {
    Num(i64),
    Int(i64),
    Bool(bool),
}

/// One normalized output row.
#[derive(Clone, Debug)]
pub struct NormalizedRecord {
    pub table: String,
    pub tags: Vec<(String, String)>,
    pub columns: Vec<(String, ColumnValue)>,
    pub timestamp_nanos: i64,
}

/// Ghost form of a normalized row.
#[verifier::ext_equal]
pub ghost struct RecordModel {
    pub table: Seq<char>,
    pub tags: Seq<(Seq<char>, Seq<char>)>,
    pub columns: Seq<(Seq<char>, ColumnValue)>,
    pub timestamp_nanos: int,
}

impl View for NormalizedRecord {
    type V = RecordModel;

    open spec fn view(&self) -> RecordModel {
        RecordModel {
            table: self.table@,
            tags: self.tags@.map(|i: int, p: (String, String)| (p.0@, p.1@)),
            columns: self.columns@.map(|i: int, p: (String, ColumnValue)| (p.0@, p.1)),
            timestamp_nanos: self.timestamp_nanos as int,
        }
    }
}

/// No name occurs twice.
pub open spec fn names_unique(names: Seq<Seq<char>>) -> bool {
    forall|i: int, j: int| 0 <= i < j < names.len() ==> names[i] != names[j]
}

/// A well-formed row: tag names unique, metric names unique.
pub open spec fn record_wf(r: RecordModel) -> bool {
    names_unique(r.tags.map(|i: int, t: (Seq<char>, Seq<char>)| t.0)) && names_unique(
        r.columns.map(|i: int, c: (Seq<char>, ColumnValue)| c.0),
    )
}

/// The shape station extraction guarantees: twenty values — a whole-number
/// device id, a nanosecond timestamp, and eighteen in-range readings.
pub open spec fn station_shape(vals: Seq<FieldValueModel>) -> bool {
    &&& vals.len() == 20
    &&& vals[0] matches FieldValueModel::Int(d) && -9_223_372_036_854 <= d
        <= 9_223_372_036_854
    &&& vals[1] matches FieldValueModel::Int(t) && 0 <= t <= 9_223_372_036_000_000_000
    &&& forall|j: int|
        2 <= j < 20 ==> (#[trigger] vals[j] matches FieldValueModel::Num(n) && in_range(n))
}

/// Whether the derived vapor-pressure deficit is defined for the raw
/// celsius and humidity readings: the temperature must lie strictly above
/// the formula's singularity and the humidity within the computable range.
pub open spec fn vpd_domain_ok(c: int, rh: int) -> bool {
    c > VPD_SINGULARITY && -1_000_000_000 <= rh <= 1_000_000_000
}

/// The station row: the device-id tag, eighteen metric columns converted
/// to output units, the derived deficit, and the scaled timestamp.
pub open spec fn station_record_model(vals: Seq<FieldValueModel>) -> RecordModel {
    let c = vals[8]->Num_0;
    let rh = vals[9]->Num_0;
    RecordModel {
        table: "tempest_station"@,
        tags: seq![("device_id"@, spec_dec(vals[0]->Int_0))],
        columns: seq![
            ("wind_lull"@, ColumnValue::Num(spec_scaled(vals[2]->Num_0, 22_369, 10_000) as i64)),
            ("wind_avg"@, ColumnValue::Num(spec_scaled(vals[3]->Num_0, 22_369, 10_000) as i64)),
            ("wind_gust"@, ColumnValue::Num(spec_scaled(vals[4]->Num_0, 22_369, 10_000) as i64)),
            ("wind_dir"@, ColumnValue::Num(vals[5]->Num_0 as i64)),
            ("wind_interval"@, ColumnValue::Num(vals[6]->Num_0 as i64)),
            ("pressure"@, ColumnValue::Num(vals[7]->Num_0 as i64)),
            ("temperature"@, ColumnValue::Num(spec_celsius_to_fahrenheit(c) as i64)),
            ("humidity"@, ColumnValue::Num(rh as i64)),
            ("luminance"@, ColumnValue::Num(vals[10]->Num_0 as i64)),
            ("uv"@, ColumnValue::Num(vals[11]->Num_0 as i64)),
            ("radiation"@, ColumnValue::Num(vals[12]->Num_0 as i64)),
            (
                "rain_accum"@,
                ColumnValue::Num(spec_scaled(vals[13]->Num_0, 393_701, 10_000_000) as i64),
            ),
            ("precip_type"@, ColumnValue::Num(vals[14]->Num_0 as i64)),
            (
                "light_dist"@,
                ColumnValue::Num(spec_scaled(vals[15]->Num_0, 621_371, 1_000_000) as i64),
            ),
            ("light_count"@, ColumnValue::Num(vals[16]->Num_0 as i64)),
            ("battery"@, ColumnValue::Num(vals[17]->Num_0 as i64)),
            ("report_int"@, ColumnValue::Num(vals[18]->Num_0 as i64)),
            (
                "rain_daily"@,
                ColumnValue::Num(spec_scaled(vals[19]->Num_0, 393_701, 10_000_000) as i64),
            ),
            ("vpd"@, ColumnValue::Num(spec_vpd(c, rh) as i64)),
        ],
        timestamp_nanos: vals[1]->Int_0,
    }
}

/// The shape sensor-report extraction guarantees: eleven values with the
/// identity strings, a nanosecond timestamp, and the nested readings.
pub open spec fn sensor_shape(vals: Seq<FieldValueModel>) -> bool {
    &&& vals.len() == 11
    &&& vals[0] is Str
    &&& vals[1] matches FieldValueModel::Int(t) && 0 <= t <= 9_223_372_036_854_000_000
    &&& vals[2] matches FieldValueModel::Num(n) && in_range(n)
    &&& vals[3] matches FieldValueModel::Num(n) && in_range(n)
    &&& vals[4] matches FieldValueModel::Int(b) && -9_223_372_036_854 <= b
        <= 9_223_372_036_854
    &&& vals[5] is Bool
    &&& vals[6] matches FieldValueModel::Int(s) && -9_223_372_036_854 <= s
        <= 9_223_372_036_854
    &&& vals[7] is Str
    &&& vals[8] is Str
    &&& vals[9] is Str
    &&& vals[10] is Str
}

/// The sensor row: five identity tags, the converted temperature, the raw
/// humidity, the derived deficit, battery, alarm flag and signal, and the
/// scaled timestamp.
pub open spec fn sensor_record_model(vals: Seq<FieldValueModel>) -> RecordModel {
    let c = vals[2]->Num_0;
    let rh = vals[3]->Num_0;
    RecordModel {
        table: "yolink"@,
        tags: seq![
            ("deviceId"@, vals[0]->Str_0),
            ("gatewayId"@, vals[7]->Str_0),
            ("netId"@, vals[8]->Str_0),
            ("mode"@, vals[9]->Str_0),
            ("state"@, vals[10]->Str_0),
        ],
        columns: seq![
            ("temperature"@, ColumnValue::Num(spec_celsius_to_fahrenheit(c) as i64)),
            ("humidity"@, ColumnValue::Num(rh as i64)),
            ("vpd"@, ColumnValue::Num(spec_vpd(c, rh) as i64)),
            ("battery"@, ColumnValue::Int(vals[4]->Int_0 as i64)),
            ("lowBattery"@, ColumnValue::Bool(vals[5]->Bool_0)),
            ("signal"@, ColumnValue::Int(vals[6]->Int_0 as i64)),
        ],
        timestamp_nanos: vals[1]->Int_0,
    }
}

fn num_at(vals: &Vec<FieldValue>, j: usize) -> (n: i64)
    requires
        j < vals@.len(),
        vals.deep_view()[j as int] is Num,
    ensures
        vals.deep_view()[j as int] == FieldValueModel::Num(n as int),
{
    match &vals[j] {
        FieldValue::Num(n) => *n,
        _ => 0,
    }
}

fn int_at(vals: &Vec<FieldValue>, j: usize) -> (n: i64)
    requires
        j < vals@.len(),
        vals.deep_view()[j as int] is Int,
    ensures
        vals.deep_view()[j as int] == FieldValueModel::Int(n as int),
{
    match &vals[j] {
        FieldValue::Int(n) => *n,
        _ => 0,
    }
}

fn str_at(vals: &Vec<FieldValue>, j: usize) -> (s: String)
    requires
        j < vals@.len(),
        vals.deep_view()[j as int] is Str,
    ensures
        vals.deep_view()[j as int] == FieldValueModel::Str(s@),
{
    match &vals[j] {
        FieldValue::Str(s) => s.clone(),
        _ => String::new(),
    }
}

fn bool_at(vals: &Vec<FieldValue>, j: usize) -> (b: bool)
    requires
        j < vals@.len(),
        vals.deep_view()[j as int] is Bool,
    ensures
        vals.deep_view()[j as int] == FieldValueModel::Bool(b),
{
    match &vals[j] {
        FieldValue::Bool(b) => *b,
        _ => false,
    }
}

/// Builds the one station row from the extracted field values.
///
/// Succeeds exactly when the derived deficit is defined for the raw
/// celsius and humidity readings; the row is then exactly
/// `station_record_model` of the values, and well formed.
pub fn build_station_record(vals: &Vec<FieldValue>) -> (r: Result<NormalizedRecord, DomainError>)
    requires
        station_shape(vals.deep_view()),
    ensures
        r is Err <==> !vpd_domain_ok(
            vals.deep_view()[8]->Num_0,
            vals.deep_view()[9]->Num_0,
        ),
        r matches Ok(rec) ==> rec@ == station_record_model(vals.deep_view()) && record_wf(rec@),
{
    let device = int_at(vals, 0);
    let t = int_at(vals, 1);
    let celsius = num_at(vals, 8);
    let rh = num_at(vals, 9);
    if celsius <= VPD_SINGULARITY || rh < -1_000_000_000 || rh > 1_000_000_000 {
        return Err(DomainError);
    }
    let vpd_val = match vapor_pressure_deficit(celsius, rh) {
        Ok(v) => v,
        Err(e) => {
            return Err(e);
        },
    };
    let mut tags: Vec<(String, String)> = Vec::new();
    tags.push(("device_id".to_owned(), i64_to_string(device)));
    let mut columns: Vec<(String, ColumnValue)> = Vec::new();
    columns.push((
        "wind_lull".to_owned(),
        ColumnValue::Num(meters_per_second_to_mph(num_at(vals, 2))),
    ));
    columns.push((
        "wind_avg".to_owned(),
        ColumnValue::Num(meters_per_second_to_mph(num_at(vals, 3))),
    ));
    columns.push((
        "wind_gust".to_owned(),
        ColumnValue::Num(meters_per_second_to_mph(num_at(vals, 4))),
    ));
    columns.push(("wind_dir".to_owned(), ColumnValue::Num(num_at(vals, 5))));
    columns.push(("wind_interval".to_owned(), ColumnValue::Num(num_at(vals, 6))));
    columns.push(("pressure".to_owned(), ColumnValue::Num(num_at(vals, 7))));
    columns.push((
        "temperature".to_owned(),
        ColumnValue::Num(celsius_to_fahrenheit(celsius)),
    ));
    columns.push(("humidity".to_owned(), ColumnValue::Num(rh)));
    columns.push(("luminance".to_owned(), ColumnValue::Num(num_at(vals, 10))));
    columns.push(("uv".to_owned(), ColumnValue::Num(num_at(vals, 11))));
    columns.push(("radiation".to_owned(), ColumnValue::Num(num_at(vals, 12))));
    columns.push((
        "rain_accum".to_owned(),
        ColumnValue::Num(millimeters_to_inches(num_at(vals, 13))),
    ));
    columns.push(("precip_type".to_owned(), ColumnValue::Num(num_at(vals, 14))));
    columns.push((
        "light_dist".to_owned(),
        ColumnValue::Num(kilometers_to_miles(num_at(vals, 15))),
    ));
    columns.push(("light_count".to_owned(), ColumnValue::Num(num_at(vals, 16))));
    columns.push(("battery".to_owned(), ColumnValue::Num(num_at(vals, 17))));
    columns.push(("report_int".to_owned(), ColumnValue::Num(num_at(vals, 18))));
    columns.push((
        "rain_daily".to_owned(),
        ColumnValue::Num(millimeters_to_inches(num_at(vals, 19))),
    ));
    columns.push(("vpd".to_owned(), ColumnValue::Num(vpd_val)));
    let rec = NormalizedRecord {
        table: "tempest_station".to_owned(),
        tags,
        columns,
        timestamp_nanos: t,
    };
    proof {
        assert(rec@.tags =~= station_record_model(vals.deep_view()).tags);
        assert(rec@.columns =~= station_record_model(vals.deep_view()).columns);
        assert(rec@ =~~= station_record_model(vals.deep_view()));
        lemma_station_names_unique(vals.deep_view());
    }
    Ok(rec)
}

/// Builds the one sensor-report row from the extracted field values.
///
/// Succeeds exactly when the derived deficit is defined for the raw
/// celsius and humidity readings; the row is then exactly
/// `sensor_record_model` of the values, and well formed.
pub fn build_sensor_record(vals: &Vec<FieldValue>) -> (r: Result<NormalizedRecord, DomainError>)
    requires
        sensor_shape(vals.deep_view()),
    ensures
        r is Err <==> !vpd_domain_ok(
            vals.deep_view()[2]->Num_0,
            vals.deep_view()[3]->Num_0,
        ),
        r matches Ok(rec) ==> rec@ == sensor_record_model(vals.deep_view()) && record_wf(rec@),
{
    let device = str_at(vals, 0);
    let t = int_at(vals, 1);
    let celsius = num_at(vals, 2);
    let rh = num_at(vals, 3);
    if celsius <= VPD_SINGULARITY || rh < -1_000_000_000 || rh > 1_000_000_000 {
        return Err(DomainError);
    }
    let vpd_val = match vapor_pressure_deficit(celsius, rh) {
        Ok(v) => v,
        Err(e) => {
            return Err(e);
        },
    };
    let mut tags: Vec<(String, String)> = Vec::new();
    tags.push(("deviceId".to_owned(), device));
    tags.push(("gatewayId".to_owned(), str_at(vals, 7)));
    tags.push(("netId".to_owned(), str_at(vals, 8)));
    tags.push(("mode".to_owned(), str_at(vals, 9)));
    tags.push(("state".to_owned(), str_at(vals, 10)));
    let mut columns: Vec<(String, ColumnValue)> = Vec::new();
    columns.push((
        "temperature".to_owned(),
        ColumnValue::Num(celsius_to_fahrenheit(celsius)),
    ));
    columns.push(("humidity".to_owned(), ColumnValue::Num(rh)));
    columns.push(("vpd".to_owned(), ColumnValue::Num(vpd_val)));
    columns.push(("battery".to_owned(), ColumnValue::Int(int_at(vals, 4))));
    columns.push(("lowBattery".to_owned(), ColumnValue::Bool(bool_at(vals, 5))));
    columns.push(("signal".to_owned(), ColumnValue::Int(int_at(vals, 6))));
    let rec = NormalizedRecord {
        table: "yolink".to_owned(),
        tags,
        columns,
        timestamp_nanos: t,
    };
    proof {
        assert(rec@.tags =~= sensor_record_model(vals.deep_view()).tags);
        assert(rec@.columns =~= sensor_record_model(vals.deep_view()).columns);
        assert(rec@ =~~= sensor_record_model(vals.deep_view()));
        lemma_sensor_names_unique(vals.deep_view());
    }
    Ok(rec)
}

/// Law: two station observations build independent rows.  Each row's one
/// tag is its own device id rendered in decimal, every column is a
/// function of its own readings alone, and different device ids yield
/// rows with different device-id tags.
pub proof fn lemma_station_rows_independent(
    v1: Seq<FieldValueModel>,
    v2: Seq<FieldValueModel>,
)
    requires
        v1[0] is Int,
        v2[0] is Int,
        v1[0]->Int_0 != v2[0]->Int_0,
    ensures
        station_record_model(v1).tags =~= seq![("device_id"@, spec_dec(v1[0]->Int_0))],
        station_record_model(v2).tags =~= seq![("device_id"@, spec_dec(v2[0]->Int_0))],
        station_record_model(v1).tags[0].1 != station_record_model(v2).tags[0].1,
{
    if spec_dec(v1[0]->Int_0) == spec_dec(v2[0]->Int_0) {
        crate::text::lemma_dec_injective(v1[0]->Int_0, v2[0]->Int_0);
    }
}

/// Law: two sensor reports build independent rows — each carries its own
/// device id as its first tag, and different device ids yield different
/// tags.
pub proof fn lemma_sensor_rows_independent(
    v1: Seq<FieldValueModel>,
    v2: Seq<FieldValueModel>,
)
    requires
        v1[0] is Str,
        v2[0] is Str,
        v1[0]->Str_0 != v2[0]->Str_0,
    ensures
        sensor_record_model(v1).tags[0] == ("deviceId"@, v1[0]->Str_0),
        sensor_record_model(v2).tags[0] == ("deviceId"@, v2[0]->Str_0),
        sensor_record_model(v1).tags[0].1 != sensor_record_model(v2).tags[0].1,
{
}

/// The station row's tag and metric names are unique.
#[verifier::rlimit(100)]
pub proof fn lemma_station_names_unique(vals: Seq<FieldValueModel>)
    ensures
        record_wf(station_record_model(vals)),
{
    reveal_strlit("device_id");
    reveal_strlit("wind_lull");
    reveal_strlit("wind_avg");
    reveal_strlit("wind_gust");
    reveal_strlit("wind_dir");
    reveal_strlit("wind_interval");
    reveal_strlit("pressure");
    reveal_strlit("temperature");
    reveal_strlit("humidity");
    reveal_strlit("luminance");
    reveal_strlit("uv");
    reveal_strlit("radiation");
    reveal_strlit("rain_accum");
    reveal_strlit("precip_type");
    reveal_strlit("light_dist");
    reveal_strlit("light_count");
    reveal_strlit("battery");
    reveal_strlit("report_int");
    reveal_strlit("rain_daily");
    reveal_strlit("vpd");
    let m = station_record_model(vals);
    let names = m.columns.map(|i: int, c: (Seq<char>, ColumnValue)| c.0);
    assert forall|i: int, j: int| 0 <= i < j < names.len() implies names[i] != names[j] by {
        assert("wind_lull"@[0] == 'w' && "wind_lull"@[5] == 'l' && "wind_lull"@.len() == 9);
        assert("wind_avg"@[0] == 'w' && "wind_avg"@[5] == 'a' && "wind_avg"@.len() == 8);
        assert("wind_gust"@[0] == 'w' && "wind_gust"@[5] == 'g' && "wind_gust"@.len() == 9);
        assert("wind_dir"@[0] == 'w' && "wind_dir"@[5] == 'd' && "wind_dir"@.len() == 8);
        assert("wind_interval"@[0] == 'w' && "wind_interval"@.len() == 13);
        assert("pressure"@[0] == 'p' && "pressure"@.len() == 8);
        assert("temperature"@[0] == 't' && "temperature"@.len() == 11);
        assert("humidity"@[0] == 'h' && "humidity"@.len() == 8);
        assert("luminance"@[0] == 'l' && "luminance"@.len() == 9);
        assert("uv"@[0] == 'u' && "uv"@.len() == 2);
        assert("radiation"@[0] == 'r' && "radiation"@.len() == 9);
        assert("rain_accum"@[0] == 'r' && "rain_accum"@[1] == 'a' && "rain_accum"@[5] == 'a'
            && "rain_accum"@.len() == 10);
        assert("precip_type"@[0] == 'p' && "precip_type"@.len() == 11);
        assert("light_dist"@[0] == 'l' && "light_dist"@.len() == 10);
        assert("light_count"@[0] == 'l' && "light_count"@.len() == 11);
        assert("battery"@[0] == 'b' && "battery"@.len() == 7);
        assert("report_int"@[0] == 'r' && "report_int"@[1] == 'e' && "report_int"@[5] == 't'
            && "report_int"@.len() == 10);
        assert("rain_daily"@[0] == 'r' && "rain_daily"@[1] == 'a' && "rain_daily"@[5] == 'd'
            && "rain_daily"@.len() == 10);
        assert("vpd"@[0] == 'v' && "vpd"@.len() == 3);
        assert(names[0] == "wind_lull"@);
        assert(names[1] == "wind_avg"@);
        assert(names[2] == "wind_gust"@);
        assert(names[3] == "wind_dir"@);
        assert(names[4] == "wind_interval"@);
        assert(names[5] == "pressure"@);
        assert(names[6] == "temperature"@);
        assert(names[7] == "humidity"@);
        assert(names[8] == "luminance"@);
        assert(names[9] == "uv"@);
        assert(names[10] == "radiation"@);
        assert(names[11] == "rain_accum"@);
        assert(names[12] == "precip_type"@);
        assert(names[13] == "light_dist"@);
        assert(names[14] == "light_count"@);
        assert(names[15] == "battery"@);
        assert(names[16] == "report_int"@);
        assert(names[17] == "rain_daily"@);
        assert(names[18] == "vpd"@);
    }
}

/// The sensor row's tag and metric names are unique.
#[verifier::rlimit(100)]
pub proof fn lemma_sensor_names_unique(vals: Seq<FieldValueModel>)
    ensures
        record_wf(sensor_record_model(vals)),
{
    reveal_strlit("deviceId");
    reveal_strlit("gatewayId");
    reveal_strlit("netId");
    reveal_strlit("mode");
    reveal_strlit("state");
    reveal_strlit("temperature");
    reveal_strlit("humidity");
    reveal_strlit("vpd");
    reveal_strlit("battery");
    reveal_strlit("lowBattery");
    reveal_strlit("signal");
    let m = sensor_record_model(vals);
    let names = m.columns.map(|i: int, c: (Seq<char>, ColumnValue)| c.0);
    assert forall|i: int, j: int| 0 <= i < j < names.len() implies names[i] != names[j] by {
        assert(names[0] == "temperature"@);
        assert(names[1] == "humidity"@);
        assert(names[2] == "vpd"@);
        assert(names[3] == "battery"@);
        assert(names[4] == "lowBattery"@);
        assert(names[5] == "signal"@);
    }
    let tnames = m.tags.map(|i: int, t: (Seq<char>, Seq<char>)| t.0);
    assert forall|i: int, j: int| 0 <= i < j < tnames.len() implies tnames[i] != tnames[j] by {
        assert("deviceId"@[0] == 'd' && "deviceId"@.len() == 8);
        assert("gatewayId"@[0] == 'g' && "gatewayId"@.len() == 9);
        assert("netId"@[0] == 'n' && "netId"@.len() == 5);
        assert("mode"@[0] == 'm' && "mode"@.len() == 4);
        assert("state"@[0] == 's' && "state"@.len() == 5);
        assert(tnames[0] == "deviceId"@);
        assert(tnames[1] == "gatewayId"@);
        assert(tnames[2] == "netId"@);
        assert(tnames[3] == "mode"@);
        assert(tnames[4] == "state"@);
    }
}

} // verus!
