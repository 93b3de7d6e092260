//! Payload codec: typed views of untyped wire payloads.
//!
//! Each handler expects a specific payload shape.  A decode either yields
//! the typed message or a `DecodeError` naming what was wrong; decode
//! failure is a distinct error kind from handler failure, and the dispatch
//! core turns it into a protocol-level error reply (actions) or a dropped
//! envelope (events) without ever invoking the handler.

use crate::value::{lookup_field, Scalar, ScalarModel, Value, ValueModel};
use crate::value::{clone_ints, get_field};
use vstd::prelude::*;
use vstd::string::StringExecFns;

verus! {

/// Why a payload failed to decode.
#[derive(Debug, PartialEq)]
pub enum DecodeError {
    /// The payload is not an object.
    NotAnObject,
    /// The named field is absent.
    MissingField(String),
    /// The named field holds a value of the wrong type.
    WrongType(String),
}

/// Mathematical model of a `DecodeError`.
pub enum DecodeErrorModel {
    NotAnObject,
    MissingField(Seq<char>),
    WrongType(Seq<char>),
}

impl View for DecodeError {
    type V = DecodeErrorModel;

    open spec fn view(&self) -> DecodeErrorModel {
        match self {
            DecodeError::NotAnObject => DecodeErrorModel::NotAnObject,
            DecodeError::MissingField(k) => DecodeErrorModel::MissingField(k@),
            DecodeError::WrongType(k) => DecodeErrorModel::WrongType(k@),
        }
    }
}

/// Parameters of the `add` action: two summands.
#[derive(Debug, PartialEq, Eq, Structural, Clone, Copy)]
pub struct AddMessage {
    pub a: i64,
    pub b: i64,
}

/// Parameters of the `squaredSum` action: the integers to square and sum.
#[derive(Debug, PartialEq)]
pub struct SquaredSumMessage {
    pub arr: Vec<i64>,
}

/// Parameters of the `broadcastName` event: the name to pass on.
#[derive(Debug, PartialEq)]
pub struct PrintNameMessage {
    pub name: String,
}

/// What `decode_add` returns for each payload.
pub open spec fn decode_add_model(v: ValueModel) -> Result<(i64, i64), DecodeErrorModel> {
    match v {
        ValueModel::Obj(fs) => match lookup_field(fs, "a"@) {
            None => Err(DecodeErrorModel::MissingField("a"@)),
            Some(sa) => match sa {
                ScalarModel::Int(a) => match lookup_field(fs, "b"@) {
                    None => Err(DecodeErrorModel::MissingField("b"@)),
                    Some(sb) => match sb {
                        ScalarModel::Int(b) => Ok((a, b)),
                        _ => Err(DecodeErrorModel::WrongType("b"@)),
                    },
                },
                _ => Err(DecodeErrorModel::WrongType("a"@)),
            },
        },
        ValueModel::Scalar(_) => Err(DecodeErrorModel::NotAnObject),
    }
}

/// Decodes the `add` payload: an object with integer fields `a` and `b`.
pub fn decode_add(v: &Value) -> (r: Result<AddMessage, DecodeError>)
    ensures
        match r {
            Ok(m) => decode_add_model(v@) == Ok::<(i64, i64), DecodeErrorModel>((m.a, m.b)),
            Err(e) => decode_add_model(v@) == Err::<(i64, i64), DecodeErrorModel>(e@),
        },
{
    match v {
        Value::Obj(fields) => {
            let ka = String::from_str("a");
            let a = match get_field(fields, &ka) {
                None => {
                    return Err(DecodeError::MissingField(ka));
                },
                Some(Scalar::Int(a)) => *a,
                Some(_) => {
                    return Err(DecodeError::WrongType(ka));
                },
            };
            let kb = String::from_str("b");
            let b = match get_field(fields, &kb) {
                None => {
                    return Err(DecodeError::MissingField(kb));
                },
                Some(Scalar::Int(b)) => *b,
                Some(_) => {
                    return Err(DecodeError::WrongType(kb));
                },
            };
            Ok(AddMessage { a, b })
        },
        Value::Scalar(_) => Err(DecodeError::NotAnObject),
    }
}

/// What `decode_squared_sum` returns for each payload.
pub open spec fn decode_squared_sum_model(v: ValueModel) -> Result<Seq<i64>, DecodeErrorModel> {
    match v {
        ValueModel::Obj(fs) => match lookup_field(fs, "arr"@) {
            None => Err(DecodeErrorModel::MissingField("arr"@)),
            Some(sa) => match sa {
                ScalarModel::IntArr(s) => Ok(s),
                _ => Err(DecodeErrorModel::WrongType("arr"@)),
            },
        },
        ValueModel::Scalar(_) => Err(DecodeErrorModel::NotAnObject),
    }
}

/// Decodes the `squaredSum` payload: an object with an integer-array
/// field `arr`.
pub fn decode_squared_sum(v: &Value) -> (r: Result<SquaredSumMessage, DecodeError>)
    ensures
        match r {
            Ok(m) => decode_squared_sum_model(v@) == Ok::<Seq<i64>, DecodeErrorModel>(m.arr@),
            Err(e) => decode_squared_sum_model(v@) == Err::<Seq<i64>, DecodeErrorModel>(e@),
        },
{
    match v {
        Value::Obj(fields) => {
            let karr = String::from_str("arr");
            match get_field(fields, &karr) {
                None => Err(DecodeError::MissingField(karr)),
                Some(Scalar::IntArr(arr)) => Ok(SquaredSumMessage { arr: clone_ints(arr) }),
                Some(_) => Err(DecodeError::WrongType(karr)),
            }
        },
        Value::Scalar(_) => Err(DecodeError::NotAnObject),
    }
}

/// What `decode_print_name` returns for each payload.
pub open spec fn decode_print_name_model(v: ValueModel) -> Result<Seq<char>, DecodeErrorModel> {
    match v {
        ValueModel::Obj(fs) => match lookup_field(fs, "name"@) {
            None => Err(DecodeErrorModel::MissingField("name"@)),
            Some(sn) => match sn {
                ScalarModel::Str(s) => Ok(s),
                _ => Err(DecodeErrorModel::WrongType("name"@)),
            },
        },
        ValueModel::Scalar(_) => Err(DecodeErrorModel::NotAnObject),
    }
}

/// Decodes the `broadcastName` payload: an object with a string field
/// `name`.
pub fn decode_print_name(v: &Value) -> (r: Result<PrintNameMessage, DecodeError>)
    ensures
        match r {
            Ok(m) => decode_print_name_model(v@) == Ok::<Seq<char>, DecodeErrorModel>(m.name@),
            Err(e) => decode_print_name_model(v@) == Err::<Seq<char>, DecodeErrorModel>(e@),
        },
{
    match v {
        Value::Obj(fields) => {
            let kname = String::from_str("name");
            match get_field(fields, &kname) {
                None => Err(DecodeError::MissingField(kname)),
                Some(Scalar::Str(name)) => Ok(PrintNameMessage { name: name.clone() }),
                Some(_) => Err(DecodeError::WrongType(kname)),
            }
        },
        Value::Scalar(_) => Err(DecodeError::NotAnObject),
    }
}

} // verus!
