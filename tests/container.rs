use griddb_client::{
    ContainerInfo, ContainerType, FieldRead, GsError, KeyValue, RowSetInfo, RowSetType, Store,
    Timestamp, TransactionMode, Type, Value, RESULT_OK,
};

fn reads_of(row: &[Value]) -> Vec<FieldRead> {
    row.iter()
        .map(|v| FieldRead { status: RESULT_OK, value: v.clone() })
        .collect()
}

fn collection_info() -> ContainerInfo {
    ContainerInfo::ContainerInfo(
        "col01",
        vec![("name", Type::String), ("active", Type::Bool), ("count", Type::Long), ("data", Type::Blob)],
        ContainerType::Collection,
        true,
    )
}

fn row(name: &str, active: bool, count: i64, data: Vec<u8>) -> Vec<Value> {
    vec![Value::Str(name.to_string()), Value::Bool(active), Value::Long(count), Value::Blob(data)]
}

#[test]
fn key_type_must_match_row_key_column() {
    let store = Store::new();
    let con = store.put_container(&collection_info(), RESULT_OK, RESULT_OK).unwrap();
    assert_eq!(con.check_key(&KeyValue::Long(1)), Err(GsError::Convert));
    assert_eq!(con.check_key(&KeyValue::Integer(1)), Err(GsError::Convert));
    assert_eq!(con.check_key(&KeyValue::Timestamp(Timestamp { value: 1 })), Err(GsError::Convert));
    assert_eq!(con.check_key(&KeyValue::Str("name01".to_string())), Ok(()));
    // The key is refused whatever the engine would have found.
    let found = Ok(Some(reads_of(&row("name01", true, 1, vec![]))));
    assert_eq!(con.get(&KeyValue::Long(1), found), Err(GsError::Convert));
}

#[test]
fn remove_with_wrong_key_type_fails_and_changes_nothing() {
    let store = Store::new();
    let mut con = store.put_container(&collection_info(), RESULT_OK, RESULT_OK).unwrap();
    con.set_auto_commit(false, RESULT_OK).unwrap();
    assert_eq!(con.remove(&KeyValue::Integer(3), RESULT_OK), Err(GsError::Convert));
    assert_eq!(con.transaction_mode(), TransactionMode::Manual { pending: 0 });
}

#[test]
fn unsupported_row_key_column_accepts_no_key() {
    let store = Store::new();
    let info = ContainerInfo::ContainerInfo("c", vec![("flag", Type::Bool)], ContainerType::Collection, true);
    let con = store.put_container(&info, RESULT_OK, RESULT_OK).unwrap();
    assert_eq!(con.check_key(&KeyValue::Str("x".to_string())), Err(GsError::Convert));
}

#[test]
fn absent_key_gives_empty_result_and_remove_is_idempotent() {
    let store = Store::new();
    let mut con = store.put_container(&collection_info(), RESULT_OK, RESULT_OK).unwrap();
    let key = KeyValue::Str("never".to_string());
    assert_eq!(con.get(&key, Ok(None)), Ok(None));
    assert_eq!(con.remove(&key, RESULT_OK), Ok(()));
    assert_eq!(con.remove(&key, RESULT_OK), Ok(()));
}

#[test]
fn engine_errors_pass_through() {
    let store = Store::new();
    let mut con = store.put_container(&collection_info(), RESULT_OK, RESULT_OK).unwrap();
    let key = KeyValue::Str("k".to_string());
    assert_eq!(con.get(&key, Err(-7)), Err(GsError::Engine(-7)));
    assert_eq!(con.remove(&key, 12), Err(GsError::Engine(12)));
    assert_eq!(con.put(&row("k", true, 1, vec![]), 13), Err(GsError::Engine(13)));
    assert!(matches!(con.query(14), Err(GsError::Engine(14))));
    assert!(matches!(store.put_container(&collection_info(), 15, RESULT_OK), Err(GsError::Engine(15))));
    assert!(matches!(store.put_container(&collection_info(), RESULT_OK, 16), Err(GsError::Engine(16))));
}

#[test]
fn put_with_wrong_kind_at_any_position_is_rejected() {
    let store = Store::new();
    let mut con = store.put_container(&collection_info(), RESULT_OK, RESULT_OK).unwrap();
    con.set_auto_commit(false, RESULT_OK).unwrap();
    let good = row("name01", false, 100, vec![65, 66]);
    for i in 0..good.len() {
        let mut bad = good.clone();
        bad[i] = Value::Integer(0);
        assert_eq!(con.check_row(&bad), Err(GsError::Convert));
        assert_eq!(con.put(&bad, RESULT_OK), Err(GsError::Convert));
    }
    assert_eq!(con.transaction_mode(), TransactionMode::Manual { pending: 0 });
    assert_eq!(con.put(&good[..2].to_vec(), RESULT_OK), Err(GsError::Convert));
    // The stored row, read back, is unchanged.
    let key = KeyValue::Str("name01".to_string());
    assert_eq!(con.get(&key, Ok(Some(reads_of(&good)))), Ok(Some(good.clone())));
}

#[test]
fn transaction_mode_follows_commit_and_abort() {
    let store = Store::new();
    let mut con = store.put_container(&collection_info(), RESULT_OK, RESULT_OK).unwrap();
    assert_eq!(con.transaction_mode(), TransactionMode::AutoCommit);
    con.put(&row("a", true, 1, vec![]), RESULT_OK).unwrap();
    assert_eq!(con.transaction_mode(), TransactionMode::AutoCommit);
    con.set_auto_commit(false, RESULT_OK).unwrap();
    con.put(&row("a", true, 1, vec![]), RESULT_OK).unwrap();
    con.remove(&KeyValue::Str("b".to_string()), RESULT_OK).unwrap();
    assert_eq!(con.transaction_mode(), TransactionMode::Manual { pending: 2 });
    assert_eq!(con.commit(9), Err(GsError::Engine(9)));
    assert_eq!(con.transaction_mode(), TransactionMode::Manual { pending: 2 });
    con.commit(RESULT_OK).unwrap();
    assert_eq!(con.transaction_mode(), TransactionMode::Manual { pending: 0 });
    con.put(&row("c", true, 1, vec![]), RESULT_OK).unwrap();
    con.abort(RESULT_OK).unwrap();
    assert_eq!(con.transaction_mode(), TransactionMode::Manual { pending: 0 });
    con.set_auto_commit(true, RESULT_OK).unwrap();
    assert_eq!(con.transaction_mode(), TransactionMode::AutoCommit);
}

#[test]
fn collection_scenario_put_two_remove_one_query_all() {
    let store = Store::new();
    let mut con = store.put_container(&collection_info(), RESULT_OK, RESULT_OK).unwrap();
    assert_eq!(con.container_type(), ContainerType::Collection);
    con.set_auto_commit(false, RESULT_OK).unwrap();
    let row1 = row("name01", false, 100, vec![65, 66, 67, 68, 69, 70, 71, 72, 73, 74]);
    let row2 = row("name02", false, 100, vec![65, 66, 67, 68, 69, 70, 71, 72, 73, 74]);
    con.put(&row1, RESULT_OK).unwrap();
    con.put(&row2, RESULT_OK).unwrap();
    con.remove(&KeyValue::Str("name02".to_string()), RESULT_OK).unwrap();
    con.commit(RESULT_OK).unwrap();
    let query = con.query(RESULT_OK).unwrap();
    let rows = query.fetch(Ok(RowSetInfo { type_code: 0, size: 1 })).unwrap();
    assert_eq!(rows.rowset_type(), RowSetType::ContainerRows);
    assert_eq!(rows.size(), 1);
    let got = rows.next(true, Ok(reads_of(&row1))).unwrap();
    assert_eq!(got, row1);
    assert_eq!(rows.next(false, Ok(vec![])), Err(GsError::Exhausted));
}

#[test]
fn time_series_scenario_keeps_the_double_value() {
    let info = ContainerInfo::ContainerInfo(
        "point01",
        vec![("timestamp", Type::Timestamp), ("active", Type::Bool), ("voltage", Type::Double)],
        ContainerType::TimeSeries,
        true,
    );
    let store = Store::new();
    let mut con = store.put_container(&info, RESULT_OK, RESULT_OK).unwrap();
    assert_eq!(con.container_type(), ContainerType::TimeSeries);
    let now = Timestamp { value: 1_700_000_000_123 };
    let voltage = 100.25f64;
    let stored = vec![Value::Timestamp(now), Value::Bool(false), Value::Double(voltage.to_bits())];
    con.put(&stored, RESULT_OK).unwrap();
    let query = con.query(RESULT_OK).unwrap();
    let rows = query.get_row_set(Ok(RowSetInfo { type_code: 0, size: -1 })).unwrap();
    let got = rows.next(true, Ok(reads_of(&stored))).unwrap();
    assert_eq!(got[0], Value::Timestamp(now));
    match &got[2] {
        Value::Double(bits) => assert_eq!(f64::from_bits(*bits), voltage),
        other => panic!("unexpected value {:?}", other),
    }
    let key = KeyValue::Timestamp(now);
    assert_eq!(con.get(&key, Ok(Some(reads_of(&stored)))), Ok(Some(stored.clone())));
}
