use tarantool_rust_api::error::{make_error, BindError};
use tarantool_rust_api::ops::{
    check_status, context, count_outcome, iterator_outcome, read_outcome, sequence_outcome,
    update_call, FieldType, IndexBase, IteratorType, Operation,
};

#[test]
fn update_with_base_one_keeps_field_one() {
    let ops = vec![("=", 1u32, "value".to_string())];
    let call = update_call(512, 0, (7u32,), ops, IndexBase::One);
    assert_eq!(call.index_base, 1);
    assert_eq!(call.ops, vec![("=", 1u32, "value".to_string())]);
    assert_eq!(call.key, (7,));
    assert_eq!((call.space_id, call.index_id), (512, 0));
}

#[test]
fn update_with_base_zero_passes_zero() {
    let call = update_call(1, 2, 3u8, (("+", 0u32, 5i64), (":", 2u32, 0u32, 1u32, "x")), IndexBase::Zero);
    assert_eq!(call.index_base, 0);
    assert_eq!(call.ops, (("+", 0u32, 5i64), (":", 2u32, 0u32, 1u32, "x")));
}

#[test]
fn codes_of_enums() {
    assert_eq!(IteratorType::EQ.code(), 0);
    assert_eq!(IteratorType::ALL.code(), 2);
    assert_eq!(IteratorType::GE.code(), 5);
    assert_eq!(IteratorType::Neigbor.code(), 11);
    assert_eq!(IndexBase::One.code(), 1);
    assert_eq!(FieldType::ANY.code(), 0);
    assert_eq!(FieldType::STRING.code(), 2);
    assert_eq!(FieldType::MAX.code(), 9);
}

#[test]
fn write_status_sentinel_is_failure() {
    assert_eq!(check_status(Operation::Insert, "s", "", 0, None), Ok(()));
    assert_eq!(check_status(Operation::Insert, "s", "", 5, Some("x".to_string())), Ok(()));
    let e = check_status(Operation::Insert, "s", "", -1, None).unwrap_err();
    assert_eq!(e, BindError::HostCall { host_message: None, context: "error on insert! space name=s ".to_string() });
    let e = check_status(Operation::Delete, "s", "primary", -1, Some("Duplicate key".to_string())).unwrap_err();
    assert_eq!(e.message(), "Duplicate key, additional info : error on delete! space name=s index name=primary ");
}

#[test]
fn contexts_name_space_and_index() {
    assert_eq!(context(Operation::Replace, "a", "b"), "error on replace! space name=a ");
    assert_eq!(context(Operation::Update, "a", "b"), "error on update! space name=a index name=b ");
    assert_eq!(context(Operation::Upsert, "a", "b"), "error on upsert! space name=a index name=b ");
    assert_eq!(context(Operation::Truncate, "a", "b"), "error on truncate space! space name=a ");
    assert_eq!(context(Operation::IndexCount, "a", "b"), "error on index count! space name=a index name=b ");
    assert_eq!(context(Operation::IteratorOpen, "a", "b"), "space name=a index name=b ");
    assert_eq!(context(Operation::TxnBegin, "", ""), "error on begin transaction");
    assert_eq!(context(Operation::TxnCommit, "", ""), "error on commit transaction");
    assert_eq!(context(Operation::TxnRollback, "", ""), "error on rollback transaction");
}

#[test]
fn point_read_maps_null_and_sentinel() {
    assert_eq!(read_outcome("s", "i", 0, Some(3u8), None), Ok(Some(3)));
    assert_eq!(read_outcome::<u8>("s", "i", 0, None, None), Ok(None));
    let e = read_outcome("s", "i", -1, Some(3u8), None).unwrap_err();
    assert_eq!(e.message(), "error on get data! space name=s index name=i ");
}

#[test]
fn count_and_sequence_outcomes() {
    assert_eq!(count_outcome("s", "i", 0, None), Ok(0));
    assert_eq!(count_outcome("s", "i", 42, None), Ok(42));
    assert!(count_outcome("s", "i", -1, None).is_err());
    assert_eq!(sequence_outcome("seq", 0, 17, None), Ok(17));
    let e = sequence_outcome("seq", -1, 17, None).unwrap_err();
    assert_eq!(e.message(), "error on get sequence value! sequence name=seq ");
}

#[test]
fn null_scan_handle_is_a_null_resource() {
    assert_eq!(iterator_outcome("s", "i", Some(9u64), None), Ok(9));
    let e = iterator_outcome::<u64>("s", "i", None, Some("no index".to_string())).unwrap_err();
    assert_eq!(
        e,
        BindError::NullResource {
            host_message: Some("no index".to_string()),
            context: "space name=s index name=i ".to_string()
        }
    );
    assert_eq!(e.message(), "no index, additional info : space name=s index name=i ");
}

#[test]
fn make_error_combines_host_message() {
    let e = make_error(None, "ctx".to_string());
    assert_eq!(e.message(), "ctx");
    let e = make_error(Some("host".to_string()), "ctx".to_string());
    assert_eq!(e.message(), "host, additional info : ctx");
    let e = BindError::Decode { context: "bad input".to_string() };
    assert_eq!(e.message(), "bad input");
    let e = BindError::NotFound { name: "x".to_string(), space_name: None };
    assert_eq!(e.message(), "unknown space name! space name=x");
}
