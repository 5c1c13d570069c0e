//! The return of a procedure's result across the entry point: layout of the
//! result tuple, and the status and message reported on failure.

use vstd::prelude::*;
use vstd::string::StringExecFns;
use crate::error::{is_host_error, BindError};
use crate::ops::FieldType;

verus! {

/// The layout of a tuple handed back to the host.
pub enum TupleLayout {
    /// The host's default layout.
    Default,
    /// A layout built from a key definition: part `i` is field
    /// `field_numbers[i]` with type code `field_types[i]`.
    Custom { field_numbers: Vec<u32>, field_types: Vec<u32> },
}

/// The first step of returning a procedure's result: encode the value into
/// a tuple of the given layout, or fail with the status and message to
/// report to the host.
pub enum ReturnStep<T> {
    Encode { value: T, layout: TupleLayout },
    Fail { status: i32, message: String },
}

/// The status an entry point returns on failure.
pub const FAILURE_STATUS: i32 = -1;

/// `layout` is the key-definition layout for the field types `fields`:
/// one part per field, numbered from zero, each with that field's type code.
pub open spec fn is_layout_of(layout: TupleLayout, fields: Seq<FieldType>) -> bool {
    match layout {
        TupleLayout::Default => false,
        TupleLayout::Custom { field_numbers, field_types } => {
            &&& field_numbers@.len() == fields.len()
            &&& field_types@.len() == fields.len()
            &&& forall|i: int|
                0 <= i < fields.len() ==> field_numbers@[i] == i as u32 && #[trigger] field_types@[i]
                    == fields[i].spec_code()
        },
    }
}

/// The key-definition parts for a custom result layout.
pub fn key_def_parts(fields: &Vec<FieldType>) -> (r: TupleLayout)
    requires
        fields@.len() <= u32::MAX,
    ensures
        is_layout_of(r, fields@),
{
    let mut field_numbers: Vec<u32> = Vec::new();
    let mut field_types: Vec<u32> = Vec::new();
    let mut i: usize = 0;
    while i < fields.len()
        invariant
            i <= fields@.len() <= u32::MAX,
            field_numbers@.len() == i,
            field_types@.len() == i,
            forall|j: int| 0 <= j < i ==> field_numbers@[j] == j as u32,
            forall|j: int| 0 <= j < i ==> #[trigger] field_types@[j] == fields@[j].spec_code(),
        decreases fields@.len() - i,
    {
        field_numbers.push(i as u32);
        field_types.push(fields[i].code());
        i = i + 1;
    }
    TupleLayout::Custom { field_numbers, field_types }
}

/// Starts returning a procedure's result. A success is to be encoded with
/// the default layout, or with the custom one that `format` describes; a
/// failure becomes the failure status and the error's message.
pub fn return_tuple<T>(result: Result<T, BindError>, format: Option<&Vec<FieldType>>) -> (r:
    ReturnStep<T>)
    requires
        format matches Some(f) ==> f@.len() <= u32::MAX,
    ensures
        result matches Err(e) ==> (r matches ReturnStep::Fail { status, message } && status
            == FAILURE_STATUS && message@ == e.spec_message()),
        result matches Ok(v) ==> (r matches ReturnStep::Encode { value, layout } && value == v
            && match format {
            None => layout is Default,
            Some(f) => is_layout_of(layout, f@),
        }),
{
    match result {
        Err(e) => ReturnStep::Fail { status: FAILURE_STATUS, message: e.message() },
        Ok(value) => {
            let layout = match format {
                None => TupleLayout::Default,
                Some(f) => key_def_parts(f),
            };
            ReturnStep::Encode { value, layout }
        },
    }
}

/// The context text when the host cannot build the result tuple.
pub open spec fn tuple_failure_text() -> Seq<char> {
    "error on create tuple!"@
}

/// Takes the host's answer to building the result tuple: a null tuple is a
/// failure.
pub fn tuple_created<P>(tuple: Option<P>, host_message: Option<String>) -> (r: Result<P, BindError>)
    ensures
        tuple matches Some(t) ==> r == Ok::<P, BindError>(t),
        tuple is None ==> (r matches Err(e) && is_host_error(e, host_message, tuple_failure_text())),
{
    match tuple {
        Some(t) => Ok(t),
        None => Err(
            BindError::HostCall {
                host_message,
                context: String::from_str("error on create tuple!"),
            },
        ),
    }
}

/// The status an entry point returns, and the message to record as the
/// host's last error: the host's own status on success, the failure status
/// and the error's message otherwise.
pub fn exit_status(outcome: Result<i32, BindError>) -> (r: (i32, Option<String>))
    ensures
        outcome matches Ok(code) ==> r.0 == code && r.1 is None,
        outcome matches Err(e) ==> r.0 == FAILURE_STATUS,
        outcome matches Err(e) ==> (r.1 matches Some(m) && m@ == e.spec_message()),
{
    match outcome {
        Ok(code) => (code, None),
        Err(e) => (FAILURE_STATUS, Some(e.message())),
    }
}

} // verus!
