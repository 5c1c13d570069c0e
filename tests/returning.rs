use tarantool_rust_api::error::BindError;
use tarantool_rust_api::ops::FieldType;
use tarantool_rust_api::shim::{
    exit_status, key_def_parts, return_tuple, tuple_created, ReturnStep, TupleLayout, FAILURE_STATUS,
};

#[test]
fn success_is_encoded_with_default_layout() {
    match return_tuple::<u32>(Ok(5), None) {
        ReturnStep::Encode { value, layout } => {
            assert_eq!(value, 5);
            assert!(matches!(layout, TupleLayout::Default));
        }
        ReturnStep::Fail { .. } => panic!("expected encode"),
    }
}

#[test]
fn success_with_format_builds_key_def() {
    let fields = vec![FieldType::UNSIGNED, FieldType::STRING, FieldType::MAP];
    match return_tuple::<u32>(Ok(5), Some(&fields)) {
        ReturnStep::Encode { layout: TupleLayout::Custom { field_numbers, field_types }, .. } => {
            assert_eq!(field_numbers, vec![0, 1, 2]);
            assert_eq!(field_types, vec![1, 2, 8]);
        }
        _ => panic!("expected custom layout"),
    }
}

#[test]
fn empty_format_has_no_parts() {
    match key_def_parts(&Vec::new()) {
        TupleLayout::Custom { field_numbers, field_types } => {
            assert!(field_numbers.is_empty());
            assert!(field_types.is_empty());
        }
        TupleLayout::Default => panic!("expected custom layout"),
    }
}

#[test]
fn failure_becomes_minus_one_and_message() {
    let e = BindError::NotFound { name: "t".to_string(), space_name: None };
    match return_tuple::<u32>(Err(e), None) {
        ReturnStep::Fail { status, message } => {
            assert_eq!(status, -1);
            assert_eq!(message, "unknown space name! space name=t");
        }
        ReturnStep::Encode { .. } => panic!("expected failure"),
    }
}

#[test]
fn exit_status_passes_host_code_or_fails() {
    assert_eq!(exit_status(Ok(0)), (0, None));
    assert_eq!(exit_status(Ok(3)), (3, None));
    let (status, message) = exit_status(Err(BindError::Decode { context: "bad".to_string() }));
    assert_eq!(status, FAILURE_STATUS);
    assert_eq!(message, Some("bad".to_string()));
}

#[test]
fn null_result_tuple_is_an_error() {
    assert_eq!(tuple_created(Some(1u8), None), Ok(1));
    let e = tuple_created::<u8>(None, None).unwrap_err();
    assert_eq!(e.message(), "error on create tuple!");
}
