use cassandra_session::value::{duplicate_bytes, duplicate_items, ResultError, Value, ValueType};

fn sample_values() -> Vec<Value> {
    vec![
        Value::Null,
        Value::Boolean(true),
        Value::TinyInt(-8),
        Value::SmallInt(-16),
        Value::Int(-32),
        Value::BigInt(-64),
        Value::Float(1.5f32.to_bits()),
        Value::Double(2.25f64.to_bits()),
        Value::Text(String::from("text")),
        Value::Blob(vec![1, 2, 3]),
        Value::Uuid(0x1234_5678_9abc_def0_1122_3344_5566_7788),
        Value::List(vec![Value::Int(1), Value::Int(2)]),
        Value::SetOf(vec![Value::Text(String::from("a"))]),
        Value::MapOf(vec![(Value::Text(String::from("k")), Value::BigInt(9))]),
        Value::Udt(vec![(String::from("street"), Value::Text(String::from("Main")))]),
        Value::Tuple(vec![Value::Boolean(false), Value::Null]),
    ]
}

#[test]
fn every_variant_has_its_tag() {
    let expected = vec![
        ValueType::Null,
        ValueType::Boolean,
        ValueType::TinyInt,
        ValueType::SmallInt,
        ValueType::Int,
        ValueType::BigInt,
        ValueType::Float,
        ValueType::Double,
        ValueType::Text,
        ValueType::Blob,
        ValueType::Uuid,
        ValueType::List,
        ValueType::SetOf,
        ValueType::MapOf,
        ValueType::Udt,
        ValueType::Tuple,
    ];
    let values = sample_values();
    assert_eq!(values.len(), expected.len());
    for (v, t) in values.iter().zip(expected.iter()) {
        assert_eq!(v.tag(), *t);
    }
}

#[test]
fn only_null_is_null() {
    for v in sample_values().iter() {
        assert_eq!(v.is_null(), v.tag() == ValueType::Null);
    }
}

#[test]
fn readers_return_what_is_held() {
    assert_eq!(Value::Boolean(true).get_bool(), Ok(true));
    assert_eq!(Value::TinyInt(-8).get_i8(), Ok(-8));
    assert_eq!(Value::SmallInt(-16).get_i16(), Ok(-16));
    assert_eq!(Value::Int(-32).get_i32(), Ok(-32));
    assert_eq!(Value::BigInt(-64).get_i64(), Ok(-64));
    assert_eq!(Value::Float(1.5f32.to_bits()).get_float_bits().map(f32::from_bits), Ok(1.5f32));
    assert_eq!(Value::Double(2.25f64.to_bits()).get_double_bits().map(f64::from_bits), Ok(2.25f64));
    assert_eq!(Value::Uuid(77).get_uuid(), Ok(77));
    assert_eq!(Value::Text(String::from("hi")).get_text(), Ok(&String::from("hi")));
    assert_eq!(Value::Blob(vec![9, 8]).get_blob(), Ok(&vec![9u8, 8u8]));
    assert_eq!(Value::List(vec![Value::Int(1)]).get_items(), Ok(&vec![Value::Int(1)]));
    assert_eq!(Value::SetOf(vec![Value::Int(2)]).get_items(), Ok(&vec![Value::Int(2)]));
    assert_eq!(Value::Tuple(vec![Value::Null]).get_items(), Ok(&vec![Value::Null]));
    assert_eq!(
        Value::MapOf(vec![(Value::Int(1), Value::Int(2))]).get_entries(),
        Ok(&vec![(Value::Int(1), Value::Int(2))])
    );
    assert_eq!(
        Value::Udt(vec![(String::from("f"), Value::Int(2))]).get_members(),
        Ok(&vec![(String::from("f"), Value::Int(2))])
    );
}

#[test]
fn readers_refuse_every_other_tag() {
    for v in sample_values().iter() {
        let t = v.tag();
        assert_eq!(v.get_bool().is_ok(), t == ValueType::Boolean);
        assert_eq!(v.get_i8().is_ok(), t == ValueType::TinyInt);
        assert_eq!(v.get_i16().is_ok(), t == ValueType::SmallInt);
        assert_eq!(v.get_i32().is_ok(), t == ValueType::Int);
        assert_eq!(v.get_i64().is_ok(), t == ValueType::BigInt);
        assert_eq!(v.get_float_bits().is_ok(), t == ValueType::Float);
        assert_eq!(v.get_double_bits().is_ok(), t == ValueType::Double);
        assert_eq!(v.get_uuid().is_ok(), t == ValueType::Uuid);
        assert_eq!(v.get_text().is_ok(), t == ValueType::Text);
        assert_eq!(v.get_blob().is_ok(), t == ValueType::Blob);
        assert_eq!(
            v.get_items().is_ok(),
            t == ValueType::List || t == ValueType::SetOf || t == ValueType::Tuple
        );
        assert_eq!(v.get_entries().is_ok(), t == ValueType::MapOf);
        assert_eq!(v.get_members().is_ok(), t == ValueType::Udt);
        if t != ValueType::Uuid {
            assert_eq!(v.get_uuid(), Err(ResultError::ValueTypeMismatch));
        }
    }
}

#[test]
fn a_refused_read_leaves_the_value_for_the_right_one() {
    let v = Value::Text(String::from("entry"));
    assert_eq!(v.get_uuid(), Err(ResultError::ValueTypeMismatch));
    assert_eq!(v.get_i64(), Err(ResultError::ValueTypeMismatch));
    assert_eq!(v.get_text(), Ok(&String::from("entry")));
}

#[test]
fn a_duplicate_equals_what_it_was_made_from() {
    let samples = sample_values();
    for v in samples.iter() {
        assert_eq!(&v.duplicate(), v);
    }
    let nested = Value::List(vec![
        Value::MapOf(vec![(Value::Text(String::from("k")), Value::Tuple(sample_values()))]),
        Value::Udt(vec![(String::from("inner"), Value::SetOf(sample_values()))]),
    ]);
    assert_eq!(nested.duplicate(), nested);
    assert_eq!(duplicate_items(&samples), samples);
    assert_eq!(duplicate_bytes(&vec![0u8, 255u8, 7u8]), vec![0u8, 255u8, 7u8]);
    assert_eq!(duplicate_bytes(&Vec::new()), Vec::<u8>::new());
}
