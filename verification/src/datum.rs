//! Run-time data of closures: scalars, sequences (arrays and slices) and
//! records (structs and tuples).
use vstd::prelude::*;
use crate::value::Value;

verus! {

/// A value that a closure reads, computes or returns.
#[derive(Debug, PartialEq)]
pub enum Datum {
    Scalar(Value),
    Sequence(Vec<Datum>),
    Record(Vec<(String, Datum)>),
}

/// The mathematical model of a [`Datum`].
pub enum Val {
    Scalar(Value),
    Sequence(Seq<Val>),
    Record(Seq<(Seq<char>, Val)>),
}

pub open spec fn datum_model(d: Datum) -> Val
    decreases d, 0nat,
{
    match d {
        Datum::Scalar(v) => constant_val(v),
        Datum::Sequence(items) => {
            proof {
                assert(decreases_to!(items => items@));
            }
            Val::Sequence(items_model(items@))
        },
        Datum::Record(fields) => {
            proof {
                assert(decreases_to!(fields => fields@));
            }
            Val::Record(record_model(fields@))
        },
    }
}

pub open spec fn items_model(items: Seq<Datum>) -> Seq<Val>
    decreases items, 1nat,
{
    if items.len() == 0 {
        Seq::empty()
    } else {
        seq![datum_model(items[0])] + items_model(items.subrange(1, items.len() as int))
    }
}

pub open spec fn record_model(fields: Seq<(String, Datum)>) -> Seq<(Seq<char>, Val)>
    decreases fields, 1nat,
{
    if fields.len() == 0 {
        Seq::empty()
    } else {
        seq![(fields[0].0@, datum_model(fields[0].1))] + record_model(
            fields.subrange(1, fields.len() as int),
        )
    }
}

impl View for Datum {
    type V = Val;

    open spec fn view(&self) -> Val {
        datum_model(*self)
    }
}

/// The models of a sequence of data.
pub open spec fn models(items: Seq<Datum>) -> Seq<Val> {
    items.map_values(|d: Datum| d@)
}

pub proof fn lemma_items_model(items: Seq<Datum>)
    ensures
        items_model(items) == models(items),
    decreases items.len(),
{
    if items.len() > 0 {
        lemma_items_model(items.subrange(1, items.len() as int));
    }
    assert(items_model(items) =~= models(items));
}

pub proof fn lemma_record_model(fields: Seq<(String, Datum)>)
    ensures
        record_model(fields).len() == fields.len(),
        forall|i: int|
            0 <= i < fields.len() ==> #[trigger] record_model(fields)[i] == (
                fields[i].0@,
                fields[i].1@,
            ),
    decreases fields.len(),
{
    if fields.len() > 0 {
        let rest = fields.subrange(1, fields.len() as int);
        lemma_record_model(rest);
        assert forall|i: int| 0 <= i < fields.len() implies #[trigger] record_model(fields)[i] == (
            fields[i].0@,
            fields[i].1@,
        ) by {
            if i > 0 {
                assert(rest[i - 1] == fields[i]);
            }
        }
    }
}

/// The model of a constant: arrays become sequences.
pub open spec fn constant_val(v: Value) -> Val
    decreases v, 0nat,
{
    match v {
        Value::Array(values) => {
            proof {
                assert(decreases_to!(values => values@));
            }
            Val::Sequence(constants_val(values@))
        },
        _ => Val::Scalar(v),
    }
}

pub open spec fn constants_val(values: Seq<Value>) -> Seq<Val>
    decreases values, 1nat,
{
    if values.len() == 0 {
        Seq::empty()
    } else {
        seq![constant_val(values[0])] + constants_val(values.subrange(1, values.len() as int))
    }
}

pub proof fn lemma_constants_val(values: Seq<Value>)
    ensures
        constants_val(values).len() == values.len(),
        forall|k: int| 0 <= k < values.len() ==> #[trigger] constants_val(values)[k] == constant_val(values[k]),
    decreases values.len(),
{
    if values.len() > 0 {
        let rest = values.subrange(1, values.len() as int);
        lemma_constants_val(rest);
        assert forall|k: int| 0 <= k < values.len() implies #[trigger] constants_val(values)[k]
            == constant_val(values[k]) by {
            if k > 0 {
                assert(rest[k - 1] == values[k]);
            }
        }
    }
}

/// A copy of a datum with the same model.
pub fn clone_datum(d: &Datum) -> (r: Datum)
    ensures
        r@ == d@,
    decreases d,
{
    match d {
        Datum::Scalar(v) => constant_datum(v),
        Datum::Sequence(items) => {
            let mut out: Vec<Datum> = Vec::new();
            let mut i: usize = 0;
            while i < items.len()
                invariant
                    0 <= i <= items@.len(),
                    *d == Datum::Sequence(*items),
                    models(out@) == models(items@.subrange(0, i as int)),
                decreases items@.len() - i,
            {
                proof {
                    assert(decreases_to!(*d => (*d)->Sequence_0));
                    assert(decreases_to!(*items => items@));
                    assert(decreases_to!(items@ => items@[i as int]));
                }
                let item = clone_datum(&items[i]);
                let ghost before = out@;
                out.push(item);
                proof {
                    assert(out@ == before.push(item));
                    assert(items@.subrange(0, i + 1) =~= items@.subrange(0, i as int).push(
                        items@[i as int],
                    ));
                    assert(models(out@) =~= models(before).push(item@));
                    assert(models(items@.subrange(0, i + 1)) =~= models(
                        items@.subrange(0, i as int),
                    ).push(items@[i as int]@));
                }
                i = i + 1;
            }
            proof {
                assert(items@.subrange(0, items@.len() as int) =~= items@);
                lemma_items_model(out@);
                lemma_items_model(items@);
            }
            Datum::Sequence(out)
        },
        Datum::Record(fields) => {
            let mut out: Vec<(String, Datum)> = Vec::new();
            let mut i: usize = 0;
            while i < fields.len()
                invariant
                    0 <= i <= fields@.len(),
                    *d == Datum::Record(*fields),
                    out@.len() == i,
                    forall|k: int|
                        0 <= k < i ==> (#[trigger] out@[k]).0 == fields@[k].0 && out@[k].1@
                            == fields@[k].1@,
                decreases fields@.len() - i,
            {
                proof {
                    assert(decreases_to!(*d => (*d)->Record_0));
                    assert(decreases_to!(*fields => fields@));
                    assert(decreases_to!(fields@ => fields@[i as int]));
                    assert(decreases_to!(fields@[i as int] => fields@[i as int].1));
                }
                let entry = (fields[i].0.clone(), clone_datum(&fields[i].1));
                out.push(entry);
                i = i + 1;
            }
            proof {
                lemma_record_model(out@);
                lemma_record_model(fields@);
                assert(record_model(out@) =~= record_model(fields@));
            }
            Datum::Record(out)
        },
    }
}

/// A copy of a scalar constant.
pub fn clone_scalar(v: &Value) -> (r: Value)
    requires
        v.is_scalar(),
    ensures
        r == *v,
{
    match v {
        Value::F32(x) => Value::F32(*x),
        Value::F64(x) => Value::F64(*x),
        Value::I8(x) => Value::I8(*x),
        Value::I16(x) => Value::I16(*x),
        Value::I32(x) => Value::I32(*x),
        Value::I64(x) => Value::I64(*x),
        Value::I128(x) => Value::I128(*x),
        Value::U8(x) => Value::U8(*x),
        Value::U16(x) => Value::U16(*x),
        Value::U32(x) => Value::U32(*x),
        Value::U64(x) => Value::U64(*x),
        Value::U128(x) => Value::U128(*x),
        Value::Usize(x) => Value::Usize(*x),
        Value::Bool(x) => Value::Bool(*x),
        Value::Array(_) => {
            assert(false);
            Value::Bool(false)
        },
    }
}

/// The datum of a constant.
pub fn constant_datum(v: &Value) -> (r: Datum)
    ensures
        r@ == constant_val(*v),
        r matches Datum::Scalar(x) ==> !(x is Array),
    decreases v,
{
    match v {
        Value::Array(values) => {
            let mut out: Vec<Datum> = Vec::new();
            let mut i: usize = 0;
            proof {
                lemma_constants_val(values@);
            }
            while i < values.len()
                invariant
                    0 <= i <= values@.len(),
                    *v == Value::Array(*values),
                    models(out@) == constants_val(values@).subrange(0, i as int),
                    constants_val(values@).len() == values@.len(),
                    forall|k: int|
                        0 <= k < values@.len() ==> #[trigger] constants_val(values@)[k]
                            == constant_val(values@[k]),
                decreases values@.len() - i,
            {
                proof {
                    assert(decreases_to!(*v => (*v)->Array_0));
                    assert(decreases_to!(*values => values@));
                    assert(decreases_to!(values@ => values@[i as int]));
                }
                let item = constant_datum(&values[i]);
                let ghost before = out@;
                out.push(item);
                proof {
                    assert(out@ == before.push(item));
                    assert(models(out@) =~= models(before).push(item@));
                    assert(models(out@) =~= constants_val(values@).subrange(0, i + 1));
                }
                i = i + 1;
            }
            proof {
                lemma_items_model(out@);
                assert(constants_val(values@).subrange(0, values@.len() as int) =~= constants_val(
                    values@,
                ));
            }
            Datum::Sequence(out)
        },
        _ => Datum::Scalar(clone_scalar(v)),
    }
}

} // verus!
