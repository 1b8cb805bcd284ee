//! The inbound telemetry document: an untyped tree of nested keyed objects,
//! arrays, and scalars, received verbatim from a transport and consumed by
//! one pipeline pass.
//!
//! Numbers are carried in micro fixed point (see `units`).  A source path
//! addresses one value in the tree by a sequence of steps, each either a
//! positional index into an array or a named key into an object.

use vstd::prelude::*;

verus! {

/// One inbound structured document.
pub enum RawValue {
    Null,
    Bool(bool),
    Num(i64),
    Str(String),
    Arr(Vec<RawValue>),
    Obj(Vec<(String, RawValue)>),
}

/// One step of a source path.
pub enum Step {
    Index(usize),
    Key(String),
}

/// Ghost form of a path step.
#[verifier::ext_equal]
pub ghost enum StepModel {
    Index(int),
    Key(Seq<char>),
}

impl View for Step {
    type V = StepModel;

    open spec fn view(&self) -> StepModel {
        match *self {
            Step::Index(i) => StepModel::Index(i as int),
            Step::Key(k) => StepModel::Key(k@),
        }
    }
}

impl DeepView for Step {
    type V = StepModel;

    open spec fn deep_view(&self) -> StepModel {
        self.view()
    }
}

/// The value under the first field named `key`, searching from index `i`.
pub open spec fn obj_lookup_from(
    fields: Seq<(String, RawValue)>,
    key: Seq<char>,
    i: int,
) -> Option<RawValue>
    decreases fields.len() - i,
{
    if i < 0 || i >= fields.len() {
        None
    } else if fields[i].0@ == key {
        Some(fields[i].1)
    } else {
        obj_lookup_from(fields, key, i + 1)
    }
}

/// The value under the first field named `key` of an object.
pub open spec fn obj_lookup(fields: Seq<(String, RawValue)>, key: Seq<char>) -> Option<RawValue> {
    obj_lookup_from(fields, key, 0)
}

/// One resolution step: an index into an array or a key into an object;
/// anything else fails.
pub open spec fn step_spec(v: RawValue, s: StepModel) -> Option<RawValue> {
    match s {
        StepModel::Index(i) => match v {
            RawValue::Arr(items) => if 0 <= i < items@.len() {
                Some(items@[i])
            } else {
                None
            },
            _ => None,
        },
        StepModel::Key(k) => match v {
            RawValue::Obj(fields) => obj_lookup(fields@, k),
            _ => None,
        },
    }
}

/// The value a path addresses, walking from step `i` on.
pub open spec fn resolve_from(v: RawValue, path: Seq<StepModel>, i: int) -> Option<RawValue>
    decreases path.len() - i,
{
    if i < 0 || i >= path.len() {
        Some(v)
    } else {
        match step_spec(v, path[i]) {
            Some(w) => resolve_from(w, path, i + 1),
            None => None,
        }
    }
}

/// The value a path addresses in a document, if every step resolves.
pub open spec fn resolve(v: RawValue, path: Seq<StepModel>) -> Option<RawValue> {
    resolve_from(v, path, 0)
}

fn lookup_obj<'a>(fields: &'a Vec<(String, RawValue)>, key: &String) -> (r: Option<
    &'a RawValue,
>)
    ensures
        match r {
            Some(w) => obj_lookup(fields@, key@) == Some(*w),
            None => obj_lookup(fields@, key@) is None,
        },
{
    let mut j: usize = 0;
    while j < fields.len()
        invariant
            j <= fields.len(),
            obj_lookup(fields@, key@) == obj_lookup_from(fields@, key@, j as int),
        decreases fields.len() - j,
    {
        if fields[j].0 == *key {
            return Some(&fields[j].1);
        }
        j = j + 1;
    }
    None
}

/// Walks a path through a document, returning the addressed value.
pub fn resolve_value<'a>(v: &'a RawValue, path: &Vec<Step>) -> (r: Option<&'a RawValue>)
    ensures
        match r {
            Some(w) => resolve(*v, path.deep_view()) == Some(*w),
            None => resolve(*v, path.deep_view()) is None,
        },
{
    let ghost pm = path.deep_view();
    let mut cur: &RawValue = v;
    let mut i: usize = 0;
    proof {
        assert(pm.len() == path@.len());
    }
    while i < path.len()
        invariant
            i <= path.len(),
            pm == path.deep_view(),
            pm.len() == path@.len(),
            resolve(*v, pm) == resolve_from(*cur, pm, i as int),
        decreases path.len() - i,
    {
        proof {
            assert(pm[i as int] == path@[i as int]@);
        }
        match &path[i] {
            Step::Index(idx) => {
                match cur {
                    RawValue::Arr(items) => {
                        if *idx < items.len() {
                            cur = &items[*idx];
                        } else {
                            return None;
                        }
                    },
                    _ => {
                        return None;
                    },
                }
            },
            Step::Key(k) => {
                match cur {
                    RawValue::Obj(fields) => {
                        match lookup_obj(fields, k) {
                            Some(w) => {
                                cur = w;
                            },
                            None => {
                                return None;
                            },
                        }
                    },
                    _ => {
                        return None;
                    },
                }
            },
        }
        i = i + 1;
    }
    Some(cur)
}

} // verus!
