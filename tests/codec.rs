use griddb_client::{FieldRead, GsError, Geometry, Timestamp, Type, Util, Value, RESULT_OK};

fn stored(row: &[Value]) -> Vec<FieldRead> {
    row.iter()
        .map(|v| FieldRead { status: RESULT_OK, value: v.clone() })
        .collect()
}

fn round_trip(types: Vec<Type>, row: Vec<Value>) {
    assert_eq!(Util::check_row(&types, &row), Ok(()));
    let back = Util::get_row_data(stored(&row), &types);
    assert_eq!(back, Ok(row));
}

#[test]
fn round_trip_strings() {
    round_trip(vec![Type::String], vec![Value::Str(String::new())]);
    round_trip(vec![Type::String], vec![Value::Str("日本語 ✓ naïve".to_string())]);
}

#[test]
fn round_trip_integer_boundaries() {
    let types = vec![Type::Byte, Type::Short, Type::Integer, Type::Long];
    round_trip(
        types.clone(),
        vec![Value::Byte(i8::MIN), Value::Short(i16::MIN), Value::Integer(i32::MIN), Value::Long(i64::MIN)],
    );
    round_trip(
        types,
        vec![Value::Byte(i8::MAX), Value::Short(i16::MAX), Value::Integer(i32::MAX), Value::Long(i64::MAX)],
    );
}

#[test]
fn round_trip_floats_by_bits() {
    let types = vec![Type::Float, Type::Double];
    for (f, d) in [(0.0f32, 0.0f64), (-0.0f32, -0.0f64), (f32::NAN, f64::NAN), (1.5f32, -2.25f64)] {
        let row = vec![Value::Float(f.to_bits()), Value::Double(d.to_bits())];
        round_trip(types.clone(), row);
    }
    // Zero and negative zero stay distinct.
    assert_ne!(Value::Double(0.0f64.to_bits()), Value::Double((-0.0f64).to_bits()));
}

#[test]
fn round_trip_blobs_bools_timestamps() {
    let types = vec![Type::Blob, Type::Bool, Type::Timestamp];
    round_trip(
        types.clone(),
        vec![Value::Blob(vec![]), Value::Bool(false), Value::Timestamp(Timestamp { value: 0 })],
    );
    round_trip(
        types,
        vec![
            Value::Blob(vec![65, 66, 67, 0, 255]),
            Value::Bool(true),
            Value::Timestamp(Timestamp { value: 253_402_300_799_999 }),
        ],
    );
}

#[test]
fn decode_rejects_geometry_column() {
    let types = vec![Type::String, Type::Geometry, Type::Long];
    let reads = stored(&[
        Value::Str("a".to_string()),
        Value::Geometry(Geometry::from("POINT(1 1)".to_string())),
        Value::Long(1),
    ]);
    assert_eq!(Util::get_row_data(reads, &types), Err(GsError::Unsupported));
}

#[test]
fn decode_reports_first_error_in_column_order() {
    let types = vec![Type::Long, Type::Long, Type::Geometry];
    let reads = vec![
        FieldRead { status: RESULT_OK, value: Value::Long(1) },
        FieldRead { status: 5, value: Value::Long(0) },
        FieldRead { status: RESULT_OK, value: Value::Long(0) },
    ];
    assert_eq!(Util::get_row_data(reads, &types), Err(GsError::Engine(5)));
}

#[test]
fn decode_rejects_wrong_kind_and_wrong_count() {
    let types = vec![Type::Integer];
    assert_eq!(
        Util::get_row_data(stored(&[Value::Long(1)]), &types),
        Err(GsError::Convert)
    );
    assert_eq!(
        Util::get_row_data(stored(&[Value::Integer(1), Value::Integer(2)]), &types),
        Err(GsError::Convert)
    );
}

#[test]
fn check_row_rejects_mismatch_at_each_position() {
    let types = vec![Type::String, Type::Bool, Type::Long, Type::Blob];
    let good = vec![
        Value::Str("name01".to_string()),
        Value::Bool(false),
        Value::Long(100),
        Value::Blob(vec![1, 2]),
    ];
    assert_eq!(Util::check_row(&types, &good), Ok(()));
    for i in 0..good.len() {
        let mut bad = good.clone();
        bad[i] = Value::Short(1);
        assert_eq!(Util::check_row(&types, &bad), Err(GsError::Convert));
    }
    assert_eq!(Util::check_row(&types, &good[..3].to_vec()), Err(GsError::Convert));
}

#[test]
fn properties_get_camel_case_names() {
    let props = vec![
        ("notification_address", "239.0.0.1"),
        ("notification_port", "31999"),
        ("cluster_name", "myCluster"),
        ("user", "admin"),
        ("password", "admin-password"),
    ];
    let out = Util::tup_to_properties(&props);
    let names: Vec<&str> = out.iter().map(|(k, _)| k.as_str()).collect();
    assert_eq!(
        names,
        vec!["notificationAddress", "notificationPort", "clusterName", "user", "password"]
    );
    assert_eq!(out[0].1, "239.0.0.1");
    assert_eq!(out[4].1, "admin-password");
}
