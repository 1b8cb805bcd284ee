//! One full pipeline pass: classify an inbound document, extract its
//! fields under the kind's schema, convert units, and build the one
//! normalized row — or say exactly why no row is produced.
//!
//! Every per-event failure is local: a rejected or unknown event never
//! affects the processing of the next one, and no partial row is ever
//! produced.

use crate::classify::{
    classify, classify_spec, sensor_schema, sensor_schema_model, station_schema,
    station_schema_model, EventKind,
};
use crate::record::{
    build_sensor_record, build_station_record, record_wf, sensor_record_model, sensor_shape,
    station_record_model, station_shape, vpd_domain_ok, NormalizedRecord,
};
use crate::schema::{
    extract_fields, field_outcome, FieldValueModel, SchemaError, SchemaReason,
};
use crate::raw::RawValue;
use crate::units::trunc_div;
use crate::vpd::DomainError;
use vstd::prelude::*;

verus! {

/// A per-event failure: a schema rejection or a derived-metric domain
/// rejection.  Both drop the event; neither stops the stream.
#[derive(Clone, Debug, PartialEq, Eq)]
pub enum PipelineError {
    Schema(SchemaError),
    Domain(DomainError),
}

/// What one pipeline pass produced: a row to append, a kind that is
/// logged and skipped, or a rejection.
#[derive(Debug)]
pub enum ProcessOutcome {
    Append(NormalizedRecord),
    Skipped(EventKind),
    Rejected(PipelineError),
}

/// Every station field rule succeeds on the document.
pub open spec fn station_ok(doc: RawValue) -> bool {
    forall|j: int| 0 <= j < 20 ==> (#[trigger] field_outcome(doc, station_schema_model()[j])) is Ok
}

/// The station field values extraction yields.
pub open spec fn station_vals(doc: RawValue) -> Seq<FieldValueModel> {
    Seq::new(20, |j: int| field_outcome(doc, station_schema_model()[j])->Ok_0)
}

/// Every sensor-report field rule succeeds on the document.
pub open spec fn sensor_ok(doc: RawValue) -> bool {
    forall|j: int| 0 <= j < 11 ==> (#[trigger] field_outcome(doc, sensor_schema_model()[j])) is Ok
}

/// The sensor-report field values extraction yields.
pub open spec fn sensor_vals(doc: RawValue) -> Seq<FieldValueModel> {
    Seq::new(11, |j: int| field_outcome(doc, sensor_schema_model()[j])->Ok_0)
}

/// The first failing rule of a schema matches the reported error.
pub open spec fn first_schema_error(
    doc: RawValue,
    specs: Seq<crate::schema::FieldSpecModel>,
    e: SchemaError,
) -> bool {
    exists|j: int|
        0 <= j < specs.len() && (forall|k: int|
            0 <= k < j ==> (#[trigger] field_outcome(doc, specs[k])) is Ok) && field_outcome(
            doc,
            specs[j],
        ) == Err::<FieldValueModel, SchemaReason>(e.reason) && e.field@ == specs[j].name
}

proof fn lemma_micro_whole_bound(n: int)
    requires
        -9_223_372_036_854_775_808 <= n <= 9_223_372_036_854_775_807,
    ensures
        -9_223_372_036_854 <= trunc_div(n, 1_000_000) <= 9_223_372_036_854,
{
    if n >= 0 {
        vstd::arithmetic::div_mod::lemma_div_pos_is_pos(n, 1_000_000);
        vstd::arithmetic::div_mod::lemma_multiply_divide_lt(n, 1_000_000, 9_223_372_036_855);
    } else {
        vstd::arithmetic::div_mod::lemma_div_pos_is_pos(-n, 1_000_000);
        vstd::arithmetic::div_mod::lemma_multiply_divide_lt(-n, 1_000_000, 9_223_372_036_855);
    }
}

/// Station extraction output has the shape the builder needs.
proof fn lemma_station_extracted_shape(doc: RawValue, vals: Seq<FieldValueModel>)
    requires
        vals.len() == 20,
        forall|j: int|
            0 <= j < 20 ==> field_outcome(doc, station_schema_model()[j]) == Ok::<
                FieldValueModel,
                SchemaReason,
            >(vals[j]),
    ensures
        station_shape(vals),
{
    assert forall|j: int| 2 <= j < 20 implies (#[trigger] vals[j] matches FieldValueModel::Num(n)
        && crate::units::in_range(n)) by {
        assert(field_outcome(doc, station_schema_model()[j]) == Ok::<
            FieldValueModel,
            SchemaReason,
        >(vals[j]));
    }
    assert(field_outcome(doc, station_schema_model()[0]) == Ok::<
        FieldValueModel,
        SchemaReason,
    >(vals[0]));
    match crate::raw::resolve(doc, station_schema_model()[0].path) {
        Some(v) => match v {
            RawValue::Num(n) => {
                lemma_micro_whole_bound(n as int);
            },
            _ => {},
        },
        None => {},
    }
    assert(field_outcome(doc, station_schema_model()[1]) == Ok::<
        FieldValueModel,
        SchemaReason,
    >(vals[1]));
}

/// Sensor extraction output has the shape the builder needs.
proof fn lemma_sensor_extracted_shape(doc: RawValue, vals: Seq<FieldValueModel>)
    requires
        vals.len() == 11,
        forall|j: int|
            0 <= j < 11 ==> field_outcome(doc, sensor_schema_model()[j]) == Ok::<
                FieldValueModel,
                SchemaReason,
            >(vals[j]),
    ensures
        sensor_shape(vals),
{
    match crate::raw::resolve(doc, sensor_schema_model()[4].path) {
        Some(v) => match v {
            RawValue::Num(n) => {
                lemma_micro_whole_bound(n as int);
            },
            _ => {},
        },
        None => {},
    }
    match crate::raw::resolve(doc, sensor_schema_model()[6].path) {
        Some(v) => match v {
            RawValue::Num(n) => {
                lemma_micro_whole_bound(n as int);
            },
            _ => {},
        },
        None => {},
    }
}

/// Processes one inbound document, start to finish.
///
/// A station observation or sensor report is extracted under its schema
/// and becomes exactly the one row its record model describes, or the
/// first schema failure, or a domain rejection of the derived metric.
/// Every other kind — including an unknown discriminator — is skipped,
/// and no row is produced for it.
pub fn process_message(doc: &RawValue) -> (r: ProcessOutcome)
    ensures
        classify_spec(*doc) == EventKind::StationObservation ==> match r {
            ProcessOutcome::Append(rec) => station_ok(*doc) && vpd_domain_ok(
                station_vals(*doc)[8]->Num_0,
                station_vals(*doc)[9]->Num_0,
            ) && rec@ == station_record_model(station_vals(*doc)) && record_wf(rec@),
            ProcessOutcome::Rejected(pe) => match pe {
                PipelineError::Schema(e) => first_schema_error(
                    *doc,
                    station_schema_model(),
                    e,
                ),
                PipelineError::Domain(_) => station_ok(*doc) && !vpd_domain_ok(
                    station_vals(*doc)[8]->Num_0,
                    station_vals(*doc)[9]->Num_0,
                ),
            },
            ProcessOutcome::Skipped(_) => false,
        },
        classify_spec(*doc) == EventKind::SensorReport ==> match r {
            ProcessOutcome::Append(rec) => sensor_ok(*doc) && vpd_domain_ok(
                sensor_vals(*doc)[2]->Num_0,
                sensor_vals(*doc)[3]->Num_0,
            ) && rec@ == sensor_record_model(sensor_vals(*doc)) && record_wf(rec@),
            ProcessOutcome::Rejected(pe) => match pe {
                PipelineError::Schema(e) => first_schema_error(*doc, sensor_schema_model(), e),
                PipelineError::Domain(_) => sensor_ok(*doc) && !vpd_domain_ok(
                    sensor_vals(*doc)[2]->Num_0,
                    sensor_vals(*doc)[3]->Num_0,
                ),
            },
            ProcessOutcome::Skipped(_) => false,
        },
        classify_spec(*doc) != EventKind::StationObservation && classify_spec(*doc)
            != EventKind::SensorReport ==> r == ProcessOutcome::Skipped(classify_spec(*doc)),
{
    let kind = classify(doc);
    match kind {
        EventKind::StationObservation => {
            let specs = station_schema();
            match extract_fields(doc, &specs) {
                Ok(vals) => {
                    proof {
                        assert(specs.deep_view().len() == 20);
                        assert(specs@.len() == 20);
                        assert forall|j: int| 0 <= j < 20 implies vals.deep_view()[j]
                            == station_vals(*doc)[j] by {
                            assert(field_outcome(*doc, specs.deep_view()[j]) == Ok::<
                                FieldValueModel,
                                SchemaReason,
                            >(vals.deep_view()[j]));
                        }
                        assert(vals.deep_view() =~= station_vals(*doc));
                        lemma_station_extracted_shape(*doc, vals.deep_view());
                    }
                    match build_station_record(&vals) {
                        Ok(rec) => ProcessOutcome::Append(rec),
                        Err(e) => ProcessOutcome::Rejected(PipelineError::Domain(e)),
                    }
                },
                Err(e) => ProcessOutcome::Rejected(PipelineError::Schema(e)),
            }
        },
        EventKind::SensorReport => {
            let specs = sensor_schema();
            match extract_fields(doc, &specs) {
                Ok(vals) => {
                    proof {
                        assert(specs.deep_view().len() == 11);
                        assert(specs@.len() == 11);
                        assert forall|j: int| 0 <= j < 11 implies vals.deep_view()[j]
                            == sensor_vals(*doc)[j] by {
                            assert(field_outcome(*doc, specs.deep_view()[j]) == Ok::<
                                FieldValueModel,
                                SchemaReason,
                            >(vals.deep_view()[j]));
                        }
                        assert(vals.deep_view() =~= sensor_vals(*doc));
                        lemma_sensor_extracted_shape(*doc, vals.deep_view());
                    }
                    match build_sensor_record(&vals) {
                        Ok(rec) => ProcessOutcome::Append(rec),
                        Err(e) => ProcessOutcome::Rejected(PipelineError::Domain(e)),
                    }
                },
                Err(e) => ProcessOutcome::Rejected(PipelineError::Schema(e)),
            }
        },
        _ => ProcessOutcome::Skipped(kind),
    }
}

} // verus!
