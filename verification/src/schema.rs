//! Declarative per-event field layout and its resolution.
//!
//! A schema is an ordered list of field rules; each names a source path
//! into the raw document, a semantic field name, whether the field is
//! required, and the type the resolved value must coerce to.  Extraction
//! walks the rules in order and fails fast on the first rule whose
//! required value is missing or whose present value does not coerce.

use crate::raw::{resolve, RawValue, Step, StepModel};
use crate::units::{in_range, trunc_div, MICRO};
use vstd::prelude::*;

verus! {

/// The type a resolved field must coerce to.
///
/// `Num` keeps the micro fixed-point reading; `Int` truncates it to a whole
/// number; the epoch types truncate to whole seconds or milliseconds and
/// scale to nanoseconds, rejecting values outside the representable range.
#[derive(Clone, Copy, Debug, PartialEq, Eq, Structural)]
pub enum FieldType {
    Num,
    Int,
    Str,
    Bool,
    EpochSec,
    EpochMs,
}

/// A value extracted for one field rule.
#[derive(Clone, Debug, PartialEq, Eq)]
pub enum FieldValue {
    Absent,
    Num(i64),
    Int(i64),
    Str(String),
    Bool(bool),
}

/// Ghost form of an extracted value.
#[verifier::ext_equal]
pub ghost enum FieldValueModel {
    Absent,
    Num(int),
    Int(int),
    Str(Seq<char>),
    Bool(bool),
}

impl View for FieldValue {
    type V = FieldValueModel;

    open spec fn view(&self) -> FieldValueModel {
        match *self {
            FieldValue::Absent => FieldValueModel::Absent,
            FieldValue::Num(n) => FieldValueModel::Num(n as int),
            FieldValue::Int(n) => FieldValueModel::Int(n as int),
            FieldValue::Str(s) => FieldValueModel::Str(s@),
            FieldValue::Bool(b) => FieldValueModel::Bool(b),
        }
    }
}

impl DeepView for FieldValue {
    type V = FieldValueModel;

    open spec fn deep_view(&self) -> FieldValueModel {
        self.view()
    }
}

/// One field rule of a schema.
pub struct FieldSpec {
    pub path: Vec<Step>,
    pub name: String,
    pub required: bool,
    pub ty: FieldType,
}

/// Ghost form of a field rule.
#[verifier::ext_equal]
pub ghost struct FieldSpecModel {
    pub path: Seq<StepModel>,
    pub name: Seq<char>,
    pub required: bool,
    pub ty: FieldType,
}

impl View for FieldSpec {
    type V = FieldSpecModel;

    open spec fn view(&self) -> FieldSpecModel {
        FieldSpecModel {
            path: self.path.deep_view(),
            name: self.name@,
            required: self.required,
            ty: self.ty,
        }
    }
}

impl DeepView for FieldSpec {
    type V = FieldSpecModel;

    open spec fn deep_view(&self) -> FieldSpecModel {
        self.view()
    }
}

/// Why a field rule failed.
#[derive(Clone, Copy, Debug, PartialEq, Eq, Structural)]
pub enum SchemaReason {
    Missing,
    Mistyped,
}

/// A rejected event: the offending field name and why it failed.
#[derive(Clone, Debug, PartialEq, Eq)]
pub struct SchemaError {
    pub field: String,
    pub reason: SchemaReason,
}

/// Largest whole-second epoch whose nanosecond scaling stays in `i64`.
pub const MAX_EPOCH_SEC: i64 = 9_223_372_036;

/// Largest whole-millisecond epoch whose nanosecond scaling stays in `i64`.
pub const MAX_EPOCH_MS: i64 = 9_223_372_036_854;

/// What a resolved raw value coerces to under a field type, if anything.
pub open spec fn coerce(v: RawValue, ty: FieldType) -> Option<FieldValueModel> {
    match ty {
        FieldType::Num => match v {
            RawValue::Num(n) => if in_range(n as int) {
                Some(FieldValueModel::Num(n as int))
            } else {
                None
            },
            _ => None,
        },
        FieldType::Int => match v {
            RawValue::Num(n) => Some(FieldValueModel::Int(trunc_div(n as int, MICRO as int))),
            _ => None,
        },
        FieldType::Str => match v {
            RawValue::Str(s) => Some(FieldValueModel::Str(s@)),
            _ => None,
        },
        FieldType::Bool => match v {
            RawValue::Bool(b) => Some(FieldValueModel::Bool(b)),
            _ => None,
        },
        FieldType::EpochSec => match v {
            RawValue::Num(n) => {
                let sec = trunc_div(n as int, MICRO as int);
                if 0 <= sec <= MAX_EPOCH_SEC {
                    Some(FieldValueModel::Int(sec * 1_000_000_000))
                } else {
                    None
                }
            },
            _ => None,
        },
        FieldType::EpochMs => match v {
            RawValue::Num(n) => {
                let ms = trunc_div(n as int, MICRO as int);
                if 0 <= ms <= MAX_EPOCH_MS {
                    Some(FieldValueModel::Int(ms * 1_000_000))
                } else {
                    None
                }
            },
            _ => None,
        },
    }
}

/// The outcome of one field rule on a document: the coerced value, an
/// `Absent` placeholder for a missing optional field, or the reason the
/// rule fails.
pub open spec fn field_outcome(doc: RawValue, fs: FieldSpecModel) -> Result<
    FieldValueModel,
    SchemaReason,
> {
    match resolve(doc, fs.path) {
        Some(v) => match coerce(v, fs.ty) {
            Some(fv) => Ok(fv),
            None => Err(SchemaReason::Mistyped),
        },
        None => if fs.required {
            Err(SchemaReason::Missing)
        } else {
            Ok(FieldValueModel::Absent)
        },
    }
}

fn coerce_value(v: &RawValue, ty: FieldType) -> (r: Option<FieldValue>)
    ensures
        match r {
            Some(fv) => coerce(*v, ty) == Some(fv@),
            None => coerce(*v, ty) is None,
        },
{
    match ty {
        FieldType::Num => match v {
            RawValue::Num(n) => if -crate::units::RAW_LIMIT <= *n && *n <= crate::units::RAW_LIMIT {
                Some(FieldValue::Num(*n))
            } else {
                None
            },
            _ => None,
        },
        FieldType::Int => match v {
            RawValue::Num(n) => Some(FieldValue::Int(*n / MICRO)),
            _ => None,
        },
        FieldType::Str => match v {
            RawValue::Str(s) => Some(FieldValue::Str(s.clone())),
            _ => None,
        },
        FieldType::Bool => match v {
            RawValue::Bool(b) => Some(FieldValue::Bool(*b)),
            _ => None,
        },
        FieldType::EpochSec => match v {
            RawValue::Num(n) => {
                let sec = *n / MICRO;
                if 0 <= sec && sec <= MAX_EPOCH_SEC {
                    Some(FieldValue::Int(sec * 1_000_000_000))
                } else {
                    None
                }
            },
            _ => None,
        },
        FieldType::EpochMs => match v {
            RawValue::Num(n) => {
                let ms = *n / MICRO;
                if 0 <= ms && ms <= MAX_EPOCH_MS {
                    Some(FieldValue::Int(ms * 1_000_000))
                } else {
                    None
                }
            },
            _ => None,
        },
    }
}

/// Resolves every field rule of a schema against a document, in order.
///
/// Returns the extracted values, one per rule, or the first rule that
/// fails: a required field that is missing, or a present field that does
/// not coerce to the rule's type.
pub fn extract_fields(doc: &RawValue, specs: &Vec<FieldSpec>) -> (r: Result<
    Vec<FieldValue>,
    SchemaError,
>)
    ensures
        match r {
            Ok(vals) => vals@.len() == specs@.len() && forall|j: int|
                0 <= j < specs@.len() ==> field_outcome(*doc, specs.deep_view()[j]) == Ok::<
                    FieldValueModel,
                    SchemaReason,
                >(vals.deep_view()[j]),
            Err(e) => exists|j: int|
                0 <= j < specs@.len() && (forall|k: int|
                    0 <= k < j ==> field_outcome(*doc, specs.deep_view()[k]) is Ok)
                    && field_outcome(*doc, specs.deep_view()[j]) == Err::<
                    FieldValueModel,
                    SchemaReason,
                >(e.reason) && e.field@ == specs.deep_view()[j].name,
        },
{
    let mut vals: Vec<FieldValue> = Vec::new();
    let mut i: usize = 0;
    while i < specs.len()
        invariant
            i <= specs.len(),
            vals@.len() == i,
            forall|j: int|
                0 <= j < i ==> field_outcome(*doc, specs.deep_view()[j]) == Ok::<
                    FieldValueModel,
                    SchemaReason,
                >(vals.deep_view()[j]),
        decreases specs.len() - i,
    {
        let fs = &specs[i];
        proof {
            assert(specs.deep_view()[i as int] == specs@[i as int]@);
        }
        let outcome: Result<FieldValue, SchemaReason> = match crate::raw::resolve_value(
            doc,
            &fs.path,
        ) {
            Some(v) => match coerce_value(v, fs.ty) {
                Some(fv) => Ok(fv),
                None => Err(SchemaReason::Mistyped),
            },
            None => if fs.required {
                Err(SchemaReason::Missing)
            } else {
                Ok(FieldValue::Absent)
            },
        };
        match outcome {
            Ok(fv) => {
                vals.push(fv);
            },
            Err(reason) => {
                proof {
                    assert(field_outcome(*doc, specs.deep_view()[i as int]) == Err::<
                        FieldValueModel,
                        SchemaReason,
                    >(reason));
                }
                return Err(SchemaError { field: fs.name.clone(), reason });
            },
        }
        i = i + 1;
    }
    Ok(vals)
}

} // verus!
