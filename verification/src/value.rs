//! JSON-like payload values as this node's handlers read them.
//!
//! Wire payloads are untyped.  The codec works on this model of them: an
//! object of named scalar fields, or a bare scalar.  `Scalar::Other`
//! stands for any wire value outside the model (floats, nested
//! structures); a typed decode rejects it, so nothing is lost by the
//! coarse representation.  The boundary layer that talks to the wire
//! converts its own document type into `Value` and back.

use vstd::prelude::*;

verus! {

/// A single payload scalar.
#[derive(Debug, PartialEq)]
pub enum Scalar {
    Null,
    Bool(bool),
    Int(i64),
    Str(String),
    IntArr(Vec<i64>),
    /// Any wire value the handlers of this node never read.
    Other,
}

/// One named field of a payload object.
#[derive(Debug, PartialEq)]
pub struct Field {
    pub key: String,
    pub value: Scalar,
}

/// A payload: an object of named scalars, or a bare scalar.
#[derive(Debug, PartialEq)]
pub enum Value {
    Scalar(Scalar),
    Obj(Vec<Field>),
}

/// Mathematical model of a `Scalar`.
pub enum ScalarModel {
    Null,
    Bool(bool),
    Int(i64),
    Str(Seq<char>),
    IntArr(Seq<i64>),
    Other,
}

/// Mathematical model of a `Value`.
pub enum ValueModel {
    Scalar(ScalarModel),
    Obj(Seq<(Seq<char>, ScalarModel)>),
}

impl View for Scalar {
    type V = ScalarModel;

    open spec fn view(&self) -> ScalarModel {
        match self {
            Scalar::Null => ScalarModel::Null,
            Scalar::Bool(b) => ScalarModel::Bool(*b),
            Scalar::Int(i) => ScalarModel::Int(*i),
            Scalar::Str(s) => ScalarModel::Str(s@),
            Scalar::IntArr(v) => ScalarModel::IntArr(v@),
            Scalar::Other => ScalarModel::Other,
        }
    }
}

impl View for Field {
    type V = (Seq<char>, ScalarModel);

    open spec fn view(&self) -> (Seq<char>, ScalarModel) {
        (self.key@, self.value@)
    }
}

impl View for Value {
    type V = ValueModel;

    open spec fn view(&self) -> ValueModel {
        match self {
            Value::Scalar(s) => ValueModel::Scalar(s@),
            Value::Obj(fields) => ValueModel::Obj(fields@.map_values(|f: Field| f@)),
        }
    }
}

/// The value of the first field named `key`, if any.  Later fields of the
/// same name are shadowed, as in a JSON object read front to back.
pub open spec fn lookup_field(
    fields: Seq<(Seq<char>, ScalarModel)>,
    key: Seq<char>,
) -> Option<ScalarModel>
    decreases fields.len(),
{
    if fields.len() == 0 {
        None
    } else if fields[0].0 == key {
        Some(fields[0].1)
    } else {
        lookup_field(fields.drop_first(), key)
    }
}

proof fn lemma_lookup_skip(fields: Seq<(Seq<char>, ScalarModel)>, key: Seq<char>, i: int)
    requires
        0 <= i <= fields.len(),
        forall|j: int| 0 <= j < i ==> fields[j].0 != key,
    ensures
        lookup_field(fields, key) == lookup_field(fields.skip(i), key),
    decreases i,
{
    if i > 0 {
        lemma_lookup_skip(fields, key, i - 1);
        let rest = fields.skip(i - 1);
        assert(rest[0] == fields[i - 1]);
        assert(rest.drop_first() =~= fields.skip(i));
        assert(lookup_field(rest, key) == lookup_field(rest.drop_first(), key)) by {
            assert(rest.len() > 0);
            assert(rest[0].0 != key);
        }
    } else {
        assert(fields.skip(0) =~= fields);
    }
}

/// Finds the first field named `key`.
pub fn get_field<'a>(fields: &'a Vec<Field>, key: &String) -> (r: Option<&'a Scalar>)
    ensures
        match r {
            Some(s) => lookup_field(fields@.map_values(|f: Field| f@), key@) == Some(s@),
            None => lookup_field(fields@.map_values(|f: Field| f@), key@) is None,
        },
{
    let ghost model: Seq<(Seq<char>, ScalarModel)> = fields@.map_values(|f: Field| f@);
    let mut i: usize = 0;
    while i < fields.len()
        invariant
            0 <= i <= fields.len(),
            model == fields@.map_values(|f: Field| f@),
            forall|j: int| 0 <= j < i ==> model[j].0 != key@,
        decreases fields.len() - i,
    {
        if fields[i].key == *key {
            proof {
                lemma_lookup_skip(model, key@, i as int);
                assert(model.skip(i as int)[0] == model[i as int]);
            }
            return Some(&fields[i].value);
        }
        i += 1;
    }
    proof {
        lemma_lookup_skip(model, key@, fields@.len() as int);
        assert(model.skip(model.len() as int) =~= Seq::<(Seq<char>, ScalarModel)>::empty());
    }
    None
}

/// Copies a vector of machine integers.
pub fn clone_ints(v: &Vec<i64>) -> (r: Vec<i64>)
    ensures
        r@ == v@,
{
    let mut r: Vec<i64> = Vec::new();
    let mut i: usize = 0;
    while i < v.len()
        invariant
            0 <= i <= v.len(),
            r@ =~= v@.take(i as int),
        decreases v.len() - i,
    {
        r.push(v[i]);
        i += 1;
    }
    proof {
        assert(r@ =~= v@);
    }
    r
}

impl Scalar {
    /// A copy with the same model.
    pub fn duplicate(&self) -> (r: Scalar)
        ensures
            r@ == self@,
    {
        match self {
            Scalar::Null => Scalar::Null,
            Scalar::Bool(b) => Scalar::Bool(*b),
            Scalar::Int(i) => Scalar::Int(*i),
            Scalar::Str(s) => Scalar::Str(s.clone()),
            Scalar::IntArr(v) => Scalar::IntArr(clone_ints(v)),
            Scalar::Other => Scalar::Other,
        }
    }
}

impl Field {
    /// A copy with the same model.
    pub fn duplicate(&self) -> (r: Field)
        ensures
            r@ == self@,
    {
        Field { key: self.key.clone(), value: self.value.duplicate() }
    }
}

impl Value {
    /// A copy with the same model.
    pub fn duplicate(&self) -> (r: Value)
        ensures
            r@ == self@,
    {
        match self {
            Value::Scalar(s) => Value::Scalar(s.duplicate()),
            Value::Obj(fields) => {
                let mut out: Vec<Field> = Vec::new();
                let mut i: usize = 0;
                while i < fields.len()
                    invariant
                        0 <= i <= fields.len(),
                        out@.len() == i,
                        forall|j: int| 0 <= j < i ==> out@[j]@ == #[trigger] fields@[j]@,
                    decreases fields.len() - i,
                {
                    out.push(fields[i].duplicate());
                    i += 1;
                }
                proof {
                    assert(out@.map_values(|f: Field| f@) =~= fields@.map_values(|f: Field| f@));
                }
                Value::Obj(out)
            },
        }
    }

    /// The empty payload object.
    pub fn empty_obj() -> (r: Value)
        ensures
            r@ == ValueModel::Obj(Seq::<(Seq<char>, ScalarModel)>::empty()),
    {
        let r = Value::Obj(Vec::new());
        proof {
            assert(r@ matches ValueModel::Obj(fs) && fs =~= Seq::<(Seq<char>, ScalarModel)>::empty());
        }
        r
    }
}

} // verus!
