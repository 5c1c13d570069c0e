//! Host operations: scan kinds, field bases and types, the context of each
//! operation's failure, and the mapping of host sentinels to results.

use vstd::prelude::*;
use vstd::string::StringExecFns;
use crate::error::{is_host_error, is_null_resource, BindError};

verus! {

/// Kinds of index scan the host offers.
#[derive(Debug, Copy, Clone, PartialEq, Eq, Hash, Structural)]
pub enum IteratorType {
    EQ,
    REQ,
    ALL,
    LT,
    LE,
    GE,
    GT,
    BitsAllSet,
    BitsAnySet,
    BitsAllNotSet,
    Ovelaps,
    Neigbor,
}

impl IteratorType {
    /// The host's code for this scan kind.
    pub open spec fn spec_code(&self) -> u8 {
        match self {
            IteratorType::EQ => 0,
            IteratorType::REQ => 1,
            IteratorType::ALL => 2,
            IteratorType::LT => 3,
            IteratorType::LE => 4,
            IteratorType::GE => 5,
            IteratorType::GT => 6,
            IteratorType::BitsAllSet => 7,
            IteratorType::BitsAnySet => 8,
            IteratorType::BitsAllNotSet => 9,
            IteratorType::Ovelaps => 10,
            IteratorType::Neigbor => 11,
        }
    }

    #[verifier::when_used_as_spec(spec_code)]
    pub fn code(&self) -> (r: u8)
        ensures
            r == self.spec_code(),
    {
        match self {
            IteratorType::EQ => 0,
            IteratorType::REQ => 1,
            IteratorType::ALL => 2,
            IteratorType::LT => 3,
            IteratorType::LE => 4,
            IteratorType::GE => 5,
            IteratorType::GT => 6,
            IteratorType::BitsAllSet => 7,
            IteratorType::BitsAnySet => 8,
            IteratorType::BitsAllNotSet => 9,
            IteratorType::Ovelaps => 10,
            IteratorType::Neigbor => 11,
        }
    }
}

/// Numbering of fields in update and upsert operations. The host counts
/// fields from one there; the caller picks the base, and it is passed on
/// as chosen.
#[derive(Debug, Copy, Clone, PartialEq, Eq, Hash, Structural)]
pub enum IndexBase {
    Zero,
    One,
}

impl IndexBase {
    pub open spec fn spec_code(&self) -> i32 {
        match self {
            IndexBase::Zero => 0,
            IndexBase::One => 1,
        }
    }

    #[verifier::when_used_as_spec(spec_code)]
    pub fn code(&self) -> (r: i32)
        ensures
            r == self.spec_code(),
    {
        match self {
            IndexBase::Zero => 0,
            IndexBase::One => 1,
        }
    }
}

/// Field types of a custom layout for a returned tuple.
#[derive(Debug, Copy, Clone, PartialEq, Eq, Hash, Structural)]
pub enum FieldType {
    ANY,
    UNSIGNED,
    STRING,
    NUMBER,
    INTEGER,
    BOOLEAN,
    SCALAR,
    ARRAY,
    MAP,
    MAX,
}

impl FieldType {
    /// The host's code for this field type.
    pub open spec fn spec_code(&self) -> u32 {
        match self {
            FieldType::ANY => 0,
            FieldType::UNSIGNED => 1,
            FieldType::STRING => 2,
            FieldType::NUMBER => 3,
            FieldType::INTEGER => 4,
            FieldType::BOOLEAN => 5,
            FieldType::SCALAR => 6,
            FieldType::ARRAY => 7,
            FieldType::MAP => 8,
            FieldType::MAX => 9,
        }
    }

    #[verifier::when_used_as_spec(spec_code)]
    pub fn code(&self) -> (r: u32)
        ensures
            r == self.spec_code(),
    {
        match self {
            FieldType::ANY => 0,
            FieldType::UNSIGNED => 1,
            FieldType::STRING => 2,
            FieldType::NUMBER => 3,
            FieldType::INTEGER => 4,
            FieldType::BOOLEAN => 5,
            FieldType::SCALAR => 6,
            FieldType::ARRAY => 7,
            FieldType::MAP => 8,
            FieldType::MAX => 9,
        }
    }
}

/// The host operations whose failure the binding layer reports.
#[derive(Debug, Copy, Clone, PartialEq, Eq, Hash, Structural)]
pub enum Operation {
    Insert,
    Replace,
    Delete,
    Update,
    Upsert,
    Truncate,
    SequenceNext,
    IndexRead,
    IndexCount,
    IteratorOpen,
    TxnBegin,
    TxnCommit,
    TxnRollback,
}

/// The context text attached to a failure of `op` on the space named
/// `space` (a sequence, for `SequenceNext`) and the index named `index`.
pub open spec fn context_of(op: Operation, space: Seq<char>, index: Seq<char>) -> Seq<char> {
    match op {
        Operation::Insert => "error on insert! space name="@ + space + " "@,
        Operation::Replace => "error on replace! space name="@ + space + " "@,
        Operation::Delete => "error on delete! space name="@ + space + " index name="@ + index
            + " "@,
        Operation::Update => "error on update! space name="@ + space + " index name="@ + index
            + " "@,
        Operation::Upsert => "error on upsert! space name="@ + space + " index name="@ + index
            + " "@,
        Operation::Truncate => "error on truncate space! space name="@ + space + " "@,
        Operation::SequenceNext => "error on get sequence value! sequence name="@ + space + " "@,
        Operation::IndexRead => "error on get data! space name="@ + space + " index name="@ + index
            + " "@,
        Operation::IndexCount => "error on index count! space name="@ + space + " index name="@
            + index + " "@,
        Operation::IteratorOpen => "space name="@ + space + " index name="@ + index + " "@,
        Operation::TxnBegin => "error on begin transaction"@,
        Operation::TxnCommit => "error on commit transaction"@,
        Operation::TxnRollback => "error on rollback transaction"@,
    }
}

fn with_names(prefix: &str, space: &str, index: Option<&str>) -> (r: String)
    ensures
        r@ == match index {
            None => prefix@ + space@ + " "@,
            Some(i) => prefix@ + space@ + " index name="@ + i@ + " "@,
        },
{
    let mut s = String::from_str(prefix);
    s.append(space);
    match index {
        None => {},
        Some(i) => {
            s.append(" index name=");
            s.append(i);
        },
    }
    s.append(" ");
    s
}

/// The context text for a failure of `op`.
pub fn context(op: Operation, space: &str, index: &str) -> (r: String)
    ensures
        r@ == context_of(op, space@, index@),
{
    match op {
        Operation::Insert => with_names("error on insert! space name=", space, None),
        Operation::Replace => with_names("error on replace! space name=", space, None),
        Operation::Delete => with_names("error on delete! space name=", space, Some(index)),
        Operation::Update => with_names("error on update! space name=", space, Some(index)),
        Operation::Upsert => with_names("error on upsert! space name=", space, Some(index)),
        Operation::Truncate => with_names("error on truncate space! space name=", space, None),
        Operation::SequenceNext => with_names(
            "error on get sequence value! sequence name=",
            space,
            None,
        ),
        Operation::IndexRead => with_names("error on get data! space name=", space, Some(index)),
        Operation::IndexCount => with_names(
            "error on index count! space name=",
            space,
            Some(index),
        ),
        Operation::IteratorOpen => with_names("space name=", space, Some(index)),
        Operation::TxnBegin => String::from_str("error on begin transaction"),
        Operation::TxnCommit => String::from_str("error on commit transaction"),
        Operation::TxnRollback => String::from_str("error on rollback transaction"),
    }
}

/// Maps the status code of a host primitive (write, truncate, transaction
/// control) to a result: the sentinel -1 is a failure, anything else success.
pub fn check_status(
    op: Operation,
    space: &str,
    index: &str,
    code: i32,
    host_message: Option<String>,
) -> (r: Result<(), BindError>)
    ensures
        code != -1 <==> r is Ok,
        r matches Err(e) ==> is_host_error(e, host_message, context_of(op, space@, index@)),
{
    if code == -1 {
        Err(BindError::HostCall { host_message, context: context(op, space, index) })
    } else {
        Ok(())
    }
}

/// Maps the answer of a point read (get, min, max): the sentinel -1 is a
/// failure, otherwise an absent tuple is "no row" and a present one is the row.
pub fn read_outcome<T>(
    space: &str,
    index: &str,
    code: i32,
    tuple: Option<T>,
    host_message: Option<String>,
) -> (r: Result<Option<T>, BindError>)
    ensures
        code != -1 ==> r == Ok::<Option<T>, BindError>(tuple),
        code == -1 ==> (r matches Err(e) && is_host_error(
            e,
            host_message,
            context_of(Operation::IndexRead, space@, index@),
        )),
{
    if code == -1 {
        Err(
            BindError::HostCall {
                host_message,
                context: context(Operation::IndexRead, space, index),
            },
        )
    } else {
        Ok(tuple)
    }
}

/// Maps the answer of an index count: -1 is a failure, any other value the count.
pub fn count_outcome(space: &str, index: &str, count: isize, host_message: Option<String>) -> (r:
    Result<isize, BindError>)
    ensures
        count != -1 ==> r == Ok::<isize, BindError>(count),
        count == -1 ==> (r matches Err(e) && is_host_error(
            e,
            host_message,
            context_of(Operation::IndexCount, space@, index@),
        )),
{
    if count == -1 {
        Err(
            BindError::HostCall {
                host_message,
                context: context(Operation::IndexCount, space, index),
            },
        )
    } else {
        Ok(count)
    }
}

/// Maps the answer of a sequence step: -1 is a failure, otherwise `value`
/// is the next value of the sequence.
pub fn sequence_outcome(
    sequence_name: &str,
    code: i32,
    value: i64,
    host_message: Option<String>,
) -> (r: Result<i64, BindError>)
    ensures
        code != -1 ==> r == Ok::<i64, BindError>(value),
        code == -1 ==> (r matches Err(e) && is_host_error(
            e,
            host_message,
            context_of(Operation::SequenceNext, sequence_name@, ""@),
        )),
{
    if code == -1 {
        Err(
            BindError::HostCall {
                host_message,
                context: context(Operation::SequenceNext, sequence_name, ""),
            },
        )
    } else {
        Ok(value)
    }
}

/// Maps the answer of a scan construction: a null handle is a failure
/// naming the space and index.
pub fn iterator_outcome<I>(
    space: &str,
    index: &str,
    handle: Option<I>,
    host_message: Option<String>,
) -> (r: Result<I, BindError>)
    ensures
        handle matches Some(h) ==> r == Ok::<I, BindError>(h),
        handle is None ==> (r matches Err(e) && is_null_resource(
            e,
            host_message,
            context_of(Operation::IteratorOpen, space@, index@),
        )),
{
    match handle {
        Some(h) => Ok(h),
        None => Err(
            BindError::NullResource {
                host_message,
                context: context(Operation::IteratorOpen, space, index),
            },
        ),
    }
}

/// An update or upsert as handed to the host: the target, the key (or, for
/// an upsert, the tuple), the operations and the numeric field base.
pub struct UpdateCall<K, O> {
    pub space_id: u32,
    pub index_id: u32,
    pub key: K,
    pub ops: O,
    pub index_base: i32,
}

/// Shapes an update or upsert for the host. The operations go through as
/// given: field numbers are never re-based.
pub fn update_call<K, O>(space_id: u32, index_id: u32, key: K, ops: O, index_base: IndexBase) -> (r:
    UpdateCall<K, O>)
    ensures
        r.space_id == space_id,
        r.index_id == index_id,
        r.key == key,
        r.ops == ops,
        r.index_base == index_base.spec_code(),
{
    UpdateCall { space_id, index_id, key, ops, index_base: index_base.code() }
}

} // verus!
