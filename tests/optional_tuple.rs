use std::cell::Cell;

use tarantool_rust_api::error::BindError;
use tarantool_rust_api::tuple::decode_opt;

#[test]
fn absent_tuple_decodes_to_none_without_decoder() {
    let calls = Cell::new(0);
    let decode = |t: &u32| -> Result<u64, BindError> {
        calls.set(calls.get() + 1);
        Ok(*t as u64 * 2)
    };
    assert_eq!(decode_opt(&None, &decode), Ok(None));
    assert_eq!(calls.get(), 0);
    assert_eq!(decode_opt(&Some(21), &decode), Ok(Some(42)));
    assert_eq!(calls.get(), 1);
}

#[test]
fn present_tuple_passes_decoder_error() {
    let decode = |_: &u32| -> Result<u64, BindError> { Err(BindError::Decode { context: "arity".to_string() }) };
    assert_eq!(decode_opt(&Some(1), decode), Err(BindError::Decode { context: "arity".to_string() }));
}
