//! The typed errors of the binding layer and their diagnostic text.

use vstd::prelude::*;
use vstd::string::StringExecFns;
use crate::stack::StackValueType;

verus! {

/// The typed failures of the binding layer.
#[derive(Debug, PartialEq, Eq)]
pub enum BindError {
    /// A payload was not a complete, well-formed encoding of the expected shape.
    Decode { context: String },
    /// A space name, or an index name within `space_name`, is unknown to the host.
    NotFound { name: String, space_name: Option<String> },
    /// A host primitive returned its failure sentinel.
    HostCall { host_message: Option<String>, context: String },
    /// A typed pop found another type on top of the interpreter stack.
    TypeMismatch { expected: StackValueType, actual: u32 },
    /// The host returned a null handle where one was required.
    NullResource { host_message: Option<String>, context: String },
}

/// The text shown for a failure of the host: the host's own message, if it
/// recorded one, followed by the caller's context.
pub open spec fn host_text(host_message: Option<String>, context: Seq<char>) -> Seq<char> {
    match host_message {
        None => context,
        Some(m) => m@ + ", additional info : "@ + context,
    }
}

impl BindError {
    /// The diagnostic text of the failure, as handed to the host's
    /// last-error slot.
    pub open spec fn spec_message(&self) -> Seq<char> {
        match self {
            BindError::Decode { context } => context@,
            BindError::NotFound { name, space_name } => match space_name {
                None => "unknown space name! space name="@ + name@,
                Some(s) => "unknown index name! space name="@ + s@ + " index name="@ + name@,
            },
            BindError::HostCall { host_message, context } => host_text(*host_message, context@),
            BindError::TypeMismatch { expected, actual } => "Incorrect type of result! expecting "@
                + StackValueType::name_of_code(expected.spec_code()) + " receive "@
                + StackValueType::name_of_code(*actual),
            BindError::NullResource { host_message, context } => host_text(*host_message, context@),
        }
    }

    pub fn message(&self) -> (r: String)
        ensures
            r@ == self.spec_message(),
    {
        match self {
            BindError::Decode { context } => context.clone(),
            BindError::NotFound { name, space_name } => match space_name {
                None => {
                    let mut s = String::from_str("unknown space name! space name=");
                    s.append(name.as_str());
                    s
                },
                Some(sp) => {
                    let mut s = String::from_str("unknown index name! space name=");
                    s.append(sp.as_str());
                    s.append(" index name=");
                    s.append(name.as_str());
                    s
                },
            },
            BindError::HostCall { host_message, context } => host_message_text(host_message, context),
            BindError::TypeMismatch { expected, actual } => {
                let mut s = String::from_str("Incorrect type of result! expecting ");
                s.append(expected.to_string());
                s.append(" receive ");
                s.append(StackValueType::raw_to_string(*actual));
                s
            },
            BindError::NullResource { host_message, context } => host_message_text(
                host_message,
                context,
            ),
        }
    }
}

fn host_message_text(host_message: &Option<String>, context: &String) -> (r: String)
    ensures
        r@ == host_text(*host_message, context@),
{
    match host_message {
        None => context.clone(),
        Some(m) => {
            let mut s = m.clone();
            s.append(", additional info : ");
            s.append(context.as_str());
            s
        },
    }
}

/// Builds the error for a failed host call from the host's last recorded
/// message (if any) and the caller's context.
pub fn make_error(host_message: Option<String>, context: String) -> (r: BindError)
    ensures
        r == (BindError::HostCall { host_message, context }),
        r.spec_message() == host_text(host_message, context@),
{
    BindError::HostCall { host_message, context }
}

} // verus!

verus! {

/// `e` is a host-call failure carrying `host_message` and the context text
/// `context`.
pub open spec fn is_host_error(e: BindError, host_message: Option<String>, context: Seq<char>) -> bool {
    e matches BindError::HostCall { host_message: h, context: c } && h == host_message && c@
        == context
}

/// `e` is a null-handle failure carrying `host_message` and the context
/// text `context`.
pub open spec fn is_null_resource(e: BindError, host_message: Option<String>, context: Seq<char>) -> bool {
    e matches BindError::NullResource { host_message: h, context: c } && h == host_message && c@
        == context
}

} // verus!
