use griddb_client::{
    ContainerInfo, ContainerType, GsError, GsColumnInfo, GsContainerInfo, IndexType, Store,
    StoreFactory, TimeUnit, TransactionMode, Type, TypeOption, Value, RESULT_OK,
};

fn sample_info() -> ContainerInfo {
    ContainerInfo::ContainerInfo(
        "point01",
        vec![("timestamp", Type::Timestamp), ("active", Type::Bool), ("voltage", Type::Double)],
        ContainerType::TimeSeries,
        true,
    )
}

#[test]
fn first_column_is_not_null_others_nullable() {
    let info = sample_info();
    assert_eq!(info.name, "point01");
    assert_eq!(info.column_count, 3);
    assert_eq!(info.column_info_list[0], ("timestamp".to_string(), Type::Timestamp, TypeOption::NotNull));
    assert_eq!(info.column_info_list[1], ("active".to_string(), Type::Bool, TypeOption::Nullable));
    assert_eq!(info.column_info_list[2], ("voltage".to_string(), Type::Double, TypeOption::Nullable));
    assert!(info.row_key);
    assert_eq!(info.container_type, ContainerType::TimeSeries);
}

#[test]
fn engine_record_uses_engine_codes() {
    let rec = sample_info().unwrap();
    assert_eq!(rec.type_code, 1);
    assert_eq!(rec.column_count, 3);
    assert!(rec.row_key_assigned);
    let codes: Vec<(i32, i32, i32)> = rec
        .column_info_list
        .iter()
        .map(|c| (c.type_code, c.index_type_flags, c.options))
        .collect();
    assert_eq!(codes, vec![(8, -1, 4), (1, -1, 2), (7, -1, 2)]);
    assert_eq!(rec.column_info_list[2].name, "voltage");
}

#[test]
fn container_info_rebuilt_from_engine_record() {
    let info = sample_info();
    let store = Store::new();
    let back = store.get_container_info("point01", Ok(info.unwrap())).unwrap();
    assert_eq!(back.name, info.name);
    assert_eq!(back.container_type, info.container_type);
    assert_eq!(back.column_count, info.column_count);
    assert_eq!(back.column_info_list, info.column_info_list);
    assert_eq!(back.row_key, info.row_key);
}

#[test]
fn container_info_rejects_unknown_codes_and_reports_engine_errors() {
    let store = Store::new();
    assert!(matches!(store.get_container_info("x", Err(145)), Err(GsError::Engine(145))));
    let mut rec = sample_info().unwrap();
    rec.type_code = 2;
    assert!(matches!(store.get_container_info("x", Ok(rec)), Err(GsError::Convert)));
    let mut rec = sample_info().unwrap();
    rec.column_info_list[1].type_code = 11;
    assert!(matches!(store.get_container_info("x", Ok(rec)), Err(GsError::Convert)));
    let empty = GsContainerInfo { type_code: 0, column_count: 0, column_info_list: vec![], row_key_assigned: false };
    assert!(matches!(store.get_container_info("x", Ok(empty)), Err(GsError::Convert)));
}

#[test]
fn get_container_builds_from_engine_record() {
    let store = Store::new();
    let rec = GsContainerInfo {
        type_code: 0,
        column_count: 2,
        column_info_list: vec![
            GsColumnInfo { name: "id".to_string(), type_code: 4, index_type_flags: -1, options: 4 },
            GsColumnInfo { name: "shape".to_string(), type_code: 9, index_type_flags: -1, options: 2 },
        ],
        row_key_assigned: true,
    };
    let con = store.get_container(RESULT_OK, Ok(rec), RESULT_OK).unwrap();
    assert_eq!(con.type_list(), &vec![Type::Integer, Type::Geometry]);
    assert_eq!(con.container_type(), ContainerType::Collection);
    assert_eq!(con.transaction_mode(), TransactionMode::AutoCommit);
    assert!(matches!(store.get_container(3, Err(4), RESULT_OK), Err(GsError::Engine(3))));
    assert!(matches!(store.get_container(RESULT_OK, Err(4), RESULT_OK), Err(GsError::Engine(4))));
    let bad = GsContainerInfo { type_code: 7, column_count: 0, column_info_list: vec![], row_key_assigned: false };
    assert!(matches!(store.get_container(RESULT_OK, Ok(bad), RESULT_OK), Err(GsError::Convert)));
}

#[test]
fn factory_version_and_store() {
    assert_eq!(StoreFactory::get_version(), "GridDB Rust Client Version 0.6");
    let factory = StoreFactory::get_instance();
    assert!(factory.get_store(RESULT_OK).is_ok());
    assert!(matches!(factory.get_store(-3), Err(GsError::Connection(-3))));
}

#[test]
fn type_codes_round_trip() {
    let all = [
        Type::String, Type::Bool, Type::Byte, Type::Short, Type::Integer, Type::Long,
        Type::Float, Type::Double, Type::Timestamp, Type::Geometry, Type::Blob,
    ];
    for (i, t) in all.iter().enumerate() {
        assert_eq!(t.code(), i as i32);
        assert_eq!(Type::from_code(i as i32), Some(*t));
    }
    assert_eq!(Type::from_code(11), None);
    assert_eq!(ContainerType::from_code(1), Some(ContainerType::TimeSeries));
    assert_eq!(ContainerType::from_code(2), None);
    assert_eq!(IndexType::Default.code(), -1);
    assert_eq!(IndexType::Tree.code(), 1);
    assert_eq!(IndexType::Spatial.code(), 4);
    assert_eq!(TimeUnit::MilliSecond.code(), 6);
    assert_eq!(TypeOption::Nullable.code(), 2);
    assert_eq!(TypeOption::NotNull.code(), 4);
}

#[test]
fn values_convert_only_to_their_own_kind() {
    assert_eq!(Value::new(5i64).data_type(), Type::Long);
    assert_eq!(Value::new("x".to_string()).into_string(), Ok("x".to_string()));
    assert_eq!(Value::new(true).into_bool(), Ok(true));
    assert_eq!(Value::new(7i8).into_byte(), Ok(7));
    assert_eq!(Value::new(7i16).into_short(), Ok(7));
    assert_eq!(Value::new(7i32).into_integer(), Ok(7));
    assert_eq!(Value::new(vec![1u8, 2]).into_blob(), Ok(vec![1, 2]));
    assert_eq!(Value::Float(1.5f32.to_bits()).into_float_bits(), Ok(1.5f32.to_bits()));
    assert_eq!(Value::Long(0).into_integer(), Err(GsError::Convert));
    assert_eq!(Value::Integer(0).into_long(), Err(GsError::Convert));
    assert_eq!(Value::Long(0).into_string(), Err(GsError::Convert));
    assert_eq!(Value::Str(String::new()).into_bool(), Err(GsError::Convert));
    assert_eq!(Value::Bool(false).into_double_bits(), Err(GsError::Convert));
    assert_eq!(Value::Bool(false).into_timestamp(), Err(GsError::Convert));
    assert_eq!(Value::Bool(false).into_blob(), Err(GsError::Convert));
    let g = Value::new(griddb_client::Geometry::from("POINT(0 0)".to_string()));
    assert_eq!(g.data_type(), Type::Geometry);
    assert_eq!(g.into_geometry().unwrap().text(), "POINT(0 0)");
}

#[test]
fn container_info_rejects_duplicate_column_names() {
    let store = Store::new();
    let mut rec = sample_info().unwrap();
    rec.column_info_list[2].name = "active".to_string();
    assert!(matches!(store.get_container_info("point01", Ok(rec)), Err(GsError::Convert)));
}
