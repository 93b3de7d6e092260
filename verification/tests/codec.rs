use service_core::codec::{
    decode_add, decode_print_name, decode_squared_sum, DecodeError,
};
use service_core::value::{get_field, Field, Scalar, Value};

fn obj(fields: Vec<(&str, Scalar)>) -> Value {
    Value::Obj(
        fields
            .into_iter()
            .map(|(k, v)| Field { key: k.to_string(), value: v })
            .collect(),
    )
}

fn obj_fields(v: &Value) -> &Vec<Field> {
    match v {
        Value::Obj(fields) => fields,
        Value::Scalar(_) => panic!("expected an object"),
    }
}

#[test]
fn decode_add_reads_both_summands() {
    let v = obj(vec![("a", Scalar::Int(-2)), ("b", Scalar::Int(40))]);
    let m = decode_add(&v).unwrap();
    assert_eq!(m.a, -2);
    assert_eq!(m.b, 40);
}

#[test]
fn decode_add_reports_each_failure() {
    assert_eq!(
        decode_add(&Value::Scalar(Scalar::Bool(true))),
        Err(DecodeError::NotAnObject)
    );
    assert_eq!(
        decode_add(&obj(vec![("b", Scalar::Int(1))])),
        Err(DecodeError::MissingField("a".to_string()))
    );
    assert_eq!(
        decode_add(&obj(vec![("a", Scalar::Int(1))])),
        Err(DecodeError::MissingField("b".to_string()))
    );
    assert_eq!(
        decode_add(&obj(vec![("a", Scalar::Null), ("b", Scalar::Int(1))])),
        Err(DecodeError::WrongType("a".to_string()))
    );
    assert_eq!(
        decode_add(&obj(vec![
            ("a", Scalar::Int(1)),
            ("b", Scalar::Str("4".to_string()))
        ])),
        Err(DecodeError::WrongType("b".to_string()))
    );
}

#[test]
fn decode_squared_sum_reads_the_array() {
    let v = obj(vec![("arr", Scalar::IntArr(vec![5, -5]))]);
    let m = decode_squared_sum(&v).unwrap();
    assert_eq!(m.arr, vec![5, -5]);
}

#[test]
fn decode_squared_sum_rejects_other_shapes() {
    assert_eq!(
        decode_squared_sum(&obj(vec![])),
        Err(DecodeError::MissingField("arr".to_string()))
    );
    assert_eq!(
        decode_squared_sum(&obj(vec![("arr", Scalar::Other)])),
        Err(DecodeError::WrongType("arr".to_string()))
    );
}

#[test]
fn decode_print_name_reads_the_name() {
    let v = obj(vec![("name", Scalar::Str("Grace".to_string()))]);
    let m = decode_print_name(&v).unwrap();
    assert_eq!(m.name, "Grace");
}

#[test]
fn decode_print_name_rejects_other_shapes() {
    assert_eq!(
        decode_print_name(&obj(vec![("name", Scalar::IntArr(vec![1]))])),
        Err(DecodeError::WrongType("name".to_string()))
    );
    assert_eq!(
        decode_print_name(&obj(vec![])),
        Err(DecodeError::MissingField("name".to_string()))
    );
}

#[test]
fn get_field_takes_the_first_match() {
    let v = obj(vec![
        ("k", Scalar::Int(1)),
        ("k", Scalar::Int(2)),
        ("other", Scalar::Null),
    ]);
    let fields = obj_fields(&v);
    assert_eq!(get_field(fields, &"k".to_string()), Some(&Scalar::Int(1)));
    assert_eq!(get_field(fields, &"missing".to_string()), None);
}

#[test]
fn duplicate_preserves_the_value() {
    let v = obj(vec![
        ("s", Scalar::Str("text".to_string())),
        ("xs", Scalar::IntArr(vec![1, 2])),
        ("n", Scalar::Null),
    ]);
    assert_eq!(v.duplicate(), v);
    let empty = Value::empty_obj();
    assert_eq!(empty, obj(vec![]));
}
