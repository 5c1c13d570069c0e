//! The scripting bridge: type tags of the interpreter stack, the arguments of
//! one interpreter call, and the checks made before each typed pop.

use vstd::prelude::*;
use vstd::slice::slice_to_vec;
use vstd::string::{StringExecFns, StringSliceAdditionalSpecFns};
use crate::error::{is_host_error, is_null_resource, BindError};

verus! {

/// Type tags of values on the embedded interpreter's stack.
#[allow(non_camel_case_types)]
#[derive(Debug, Copy, Clone, PartialEq, Eq, Hash, Structural)]
pub enum StackValueType {
    LUA_TNIL,
    LUA_TBOOLEAN,
    LUA_TLIGHTUSERDATA,
    LUA_TNUMBER,
    LUA_TSTRING,
    LUA_TTABLE,
    LUA_TFUNCTION,
    LUA_TUSERDATA,
    LUA_TTHREAD,
    LUA_TUPLE,
}

/// The interpreter's numeric code for the nil type.
pub const LUA_TNIL: i32 = 0;

impl StackValueType {
    /// The numeric code the interpreter uses for this type.
    pub open spec fn spec_code(&self) -> u32 {
        match self {
            StackValueType::LUA_TNIL => 0,
            StackValueType::LUA_TBOOLEAN => 1,
            StackValueType::LUA_TLIGHTUSERDATA => 2,
            StackValueType::LUA_TNUMBER => 3,
            StackValueType::LUA_TSTRING => 4,
            StackValueType::LUA_TTABLE => 5,
            StackValueType::LUA_TFUNCTION => 6,
            StackValueType::LUA_TUSERDATA => 7,
            StackValueType::LUA_TTHREAD => 8,
            StackValueType::LUA_TUPLE => 10,
        }
    }

    #[verifier::when_used_as_spec(spec_code)]
    pub fn code(&self) -> (r: u32)
        ensures
            r == self.spec_code(),
    {
        match self {
            StackValueType::LUA_TNIL => 0,
            StackValueType::LUA_TBOOLEAN => 1,
            StackValueType::LUA_TLIGHTUSERDATA => 2,
            StackValueType::LUA_TNUMBER => 3,
            StackValueType::LUA_TSTRING => 4,
            StackValueType::LUA_TTABLE => 5,
            StackValueType::LUA_TFUNCTION => 6,
            StackValueType::LUA_TUSERDATA => 7,
            StackValueType::LUA_TTHREAD => 8,
            StackValueType::LUA_TUPLE => 10,
        }
    }

    /// The display name of a raw type code; codes outside the known set
    /// read as "unknown type".
    pub open spec fn name_of_code(value: u32) -> Seq<char> {
        if value == 0 {
            "NIL"@
        } else if value == 1 {
            "BOOLEAN"@
        } else if value == 2 {
            "LIGHTUSERDATA"@
        } else if value == 3 {
            "NUMBER"@
        } else if value == 4 {
            "STRING"@
        } else if value == 5 {
            "TABLE"@
        } else if value == 6 {
            "FUNCTION"@
        } else if value == 7 {
            "USERDATA"@
        } else if value == 8 {
            "THREAD"@
        } else if value == 10 {
            "TUPLE"@
        } else {
            "unknown type"@
        }
    }

    pub fn raw_to_string(value: u32) -> (r: &'static str)
        ensures
            r@ == Self::name_of_code(value),
    {
        match value {
            0 => "NIL",
            1 => "BOOLEAN",
            2 => "LIGHTUSERDATA",
            3 => "NUMBER",
            4 => "STRING",
            5 => "TABLE",
            6 => "FUNCTION",
            7 => "USERDATA",
            8 => "THREAD",
            10 => "TUPLE",
            _ => "unknown type",
        }
    }

    pub fn to_string(&self) -> (r: &'static str)
        ensures
            r@ == Self::name_of_code(self.spec_code()),
    {
        Self::raw_to_string(self.code())
    }
}

/// One argument of an interpreter call, in the order pushed.
#[derive(Debug, PartialEq, Eq)]
pub enum ScriptArg {
    Int(i64),
    UInt(u64),
    Bool(bool),
    Nil,
    Str(Vec<u8>),
    /// An encoded tuple, made into a host tuple when pushed.
    Tuple(Vec<u8>),
}

/// One call of a global function of the embedded interpreter: the function
/// name and the arguments recorded so far. The host pushes the function and
/// then the arguments in order, and calls it with `parameters_count()`
/// arguments.
#[derive(Debug)]
pub struct LuaCall {
    function_name: String,
    args: Vec<ScriptArg>,
}

impl LuaCall {
    pub closed spec fn spec_function_name(&self) -> Seq<char> {
        self.function_name@
    }

    pub closed spec fn spec_args(&self) -> Seq<ScriptArg> {
        self.args@
    }

    /// Starts a call of the global function `fn_name`, with no arguments.
    /// A name holding a NUL byte cannot be looked up in the interpreter and
    /// is refused.
    pub fn new(fn_name: &str) -> (r: Result<LuaCall, BindError>)
        ensures
            has_nul(fn_name.spec_bytes()) <==> r is Err,
            r matches Ok(c) ==> c.spec_function_name() == fn_name@ && c.spec_args() == Seq::<
                ScriptArg,
            >::empty(),
            r matches Err(e) ==> is_host_error(e, None, bad_name_text(fn_name@)),
    {
        let bytes = fn_name.as_bytes();
        let mut i: usize = 0;
        while i < bytes.len()
            invariant
                i <= bytes@.len(),
                bytes@ == fn_name.spec_bytes(),
                forall|j: int| 0 <= j < i ==> bytes@[j] != 0,
            decreases bytes@.len() - i,
        {
            if bytes[i] == 0 {
                let mut context = String::from_str("invalid function name! function name=");
                context.append(fn_name);
                return Err(BindError::HostCall { host_message: None, context });
            }
            i = i + 1;
        }
        Ok(LuaCall { function_name: fn_name.to_owned(), args: Vec::new() })
    }

    pub fn function_name(&self) -> (r: &str)
        ensures
            r@ == self.spec_function_name(),
    {
        self.function_name.as_str()
    }

    pub fn args(&self) -> (r: &Vec<ScriptArg>)
        ensures
            r@ == self.spec_args(),
    {
        &self.args
    }

    /// The number of arguments pushed so far.
    pub fn parameters_count(&self) -> (r: usize)
        ensures
            r == self.spec_args().len(),
    {
        self.args.len()
    }

    fn push(&mut self, arg: ScriptArg)
        ensures
            final(self).spec_args() == old(self).spec_args().push(arg),
            final(self).spec_function_name() == old(self).spec_function_name(),
    {
        self.args.push(arg);
    }

    pub fn push_int(&mut self, value: i64)
        ensures
            final(self).spec_args() == old(self).spec_args().push(ScriptArg::Int(value)),
            final(self).spec_function_name() == old(self).spec_function_name(),
    {
        self.push(ScriptArg::Int(value));
    }

    /// Pushes the integer, or nil when absent.
    pub fn push_int_opt(&mut self, value: Option<i64>)
        ensures
            final(self).spec_args() == old(self).spec_args().push(
                match value {
                    Some(v) => ScriptArg::Int(v),
                    None => ScriptArg::Nil,
                },
            ),
            final(self).spec_function_name() == old(self).spec_function_name(),
    {
        match value {
            Some(v) => self.push_int(v),
            None => self.push_nil(),
        }
    }

    pub fn push_uint(&mut self, value: u64)
        ensures
            final(self).spec_args() == old(self).spec_args().push(ScriptArg::UInt(value)),
            final(self).spec_function_name() == old(self).spec_function_name(),
    {
        self.push(ScriptArg::UInt(value));
    }

    /// Pushes the unsigned integer, or nil when absent.
    pub fn push_uint_opt(&mut self, value: Option<u64>)
        ensures
            final(self).spec_args() == old(self).spec_args().push(
                match value {
                    Some(v) => ScriptArg::UInt(v),
                    None => ScriptArg::Nil,
                },
            ),
            final(self).spec_function_name() == old(self).spec_function_name(),
    {
        match value {
            Some(v) => self.push_uint(v),
            None => self.push_nil(),
        }
    }

    pub fn push_bool(&mut self, value: bool)
        ensures
            final(self).spec_args() == old(self).spec_args().push(ScriptArg::Bool(value)),
            final(self).spec_function_name() == old(self).spec_function_name(),
    {
        self.push(ScriptArg::Bool(value));
    }

    /// Pushes the boolean, or nil when absent.
    pub fn push_bool_opt(&mut self, value: Option<bool>)
        ensures
            final(self).spec_args() == old(self).spec_args().push(
                match value {
                    Some(v) => ScriptArg::Bool(v),
                    None => ScriptArg::Nil,
                },
            ),
            final(self).spec_function_name() == old(self).spec_function_name(),
    {
        match value {
            Some(v) => self.push_bool(v),
            None => self.push_nil(),
        }
    }

    pub fn push_nil(&mut self)
        ensures
            final(self).spec_args() == old(self).spec_args().push(ScriptArg::Nil),
            final(self).spec_function_name() == old(self).spec_function_name(),
    {
        self.push(ScriptArg::Nil);
    }

    /// Pushes an encoded tuple.
    pub fn push_tuple(&mut self, value: Vec<u8>)
        ensures
            final(self).spec_args() == old(self).spec_args().push(ScriptArg::Tuple(value)),
            final(self).spec_function_name() == old(self).spec_function_name(),
    {
        self.push(ScriptArg::Tuple(value));
    }

    /// Pushes the encoded tuple, or nil when absent.
    pub fn push_tuple_opt(&mut self, value: Option<Vec<u8>>)
        ensures
            final(self).spec_args() == old(self).spec_args().push(
                match value {
                    Some(v) => ScriptArg::Tuple(v),
                    None => ScriptArg::Nil,
                },
            ),
            final(self).spec_function_name() == old(self).spec_function_name(),
    {
        match value {
            Some(v) => self.push_tuple(v),
            None => self.push_nil(),
        }
    }

    /// Pushes the bytes of a string.
    pub fn push_str(&mut self, value: &[u8])
        ensures
            final(self).spec_args().len() == old(self).spec_args().len() + 1,
            final(self).spec_args().drop_last() == old(self).spec_args(),
            final(self).spec_args().last() matches ScriptArg::Str(b) && b@ == value@,
            final(self).spec_function_name() == old(self).spec_function_name(),
    {
        self.push(ScriptArg::Str(slice_to_vec(value)));
    }

    /// Pushes the bytes of a string, or nil when absent.
    pub fn push_str_opt(&mut self, value: Option<&[u8]>)
        ensures
            final(self).spec_args().len() == old(self).spec_args().len() + 1,
            final(self).spec_args().drop_last() == old(self).spec_args(),
            match value {
                Some(v) => final(self).spec_args().last() matches ScriptArg::Str(b) && b@ == v@,
                None => final(self).spec_args().last() == ScriptArg::Nil,
            },
            final(self).spec_function_name() == old(self).spec_function_name(),
    {
        match value {
            Some(v) => self.push_str(v),
            None => {
                self.push_nil();
                assert(self.args@.drop_last() =~= old(self).args@);
            },
        }
    }

    /// Takes the host's status for the call: any non-zero code is a failure.
    pub fn call(&self, code: i32, host_message: Option<String>) -> (r: Result<(), BindError>)
        ensures
            code == 0 <==> r is Ok,
            r matches Err(e) ==> is_host_error(
                e,
                host_message,
                call_failure_text(self.spec_function_name()),
            ),
    {
        if code != 0 {
            let mut context = String::from_str("error on call stored proc! function name=");
            context.append(self.function_name.as_str());
            Err(BindError::HostCall { host_message, context })
        } else {
            Ok(())
        }
    }

    /// Checks the type found on top of the interpreter stack before a typed
    /// pop: `Ok(true)` when it is the expected type (read the value, then
    /// pop one slot), `Ok(false)` when it is nil (the result is absent; pop
    /// one slot), and a type-mismatch error naming both types otherwise
    /// (pop nothing).
    pub fn check_pop(expected: StackValueType, actual: i32) -> (r: Result<bool, BindError>)
        ensures
            actual == expected.spec_code() ==> r == Ok::<bool, BindError>(true),
            actual != expected.spec_code() && actual == LUA_TNIL ==> r == Ok::<bool, BindError>(
                false,
            ),
            actual != expected.spec_code() && actual != LUA_TNIL ==> (r matches Err(
                BindError::TypeMismatch { expected: e, actual: a },
            ) && e == expected && a == actual as u32),
    {
        if actual >= 0 && actual as u32 == expected.code() {
            Ok(true)
        } else if actual == LUA_TNIL {
            Ok(false)
        } else {
            Err(BindError::TypeMismatch { expected, actual: actual as u32 })
        }
    }
}

/// The context text when a value popped as a tuple is not one.
pub open spec fn not_a_tuple_text() -> Seq<char> {
    "No tuple as ret param!"@
}

/// Takes the host's conversion of the top of the stack to a tuple: a null
/// tuple is a failure.
pub fn tuple_on_stack<P>(tuple: Option<P>, host_message: Option<String>) -> (r: Result<P, BindError>)
    ensures
        tuple matches Some(t) ==> r == Ok::<P, BindError>(t),
        tuple is None ==> (r matches Err(e) && is_null_resource(e, host_message, not_a_tuple_text())),
{
    match tuple {
        Some(t) => Ok(t),
        None => Err(
            BindError::NullResource {
                host_message,
                context: String::from_str("No tuple as ret param!"),
            },
        ),
    }
}

/// The bytes hold a NUL byte.
pub open spec fn has_nul(bytes: Seq<u8>) -> bool {
    exists|i: int| 0 <= i < bytes.len() && bytes[i] == 0
}

/// The context text of a refused function name.
pub open spec fn bad_name_text(name: Seq<char>) -> Seq<char> {
    "invalid function name! function name="@ + name
}

/// The context text of a failed interpreter call of `name`.
pub open spec fn call_failure_text(name: Seq<char>) -> Seq<char> {
    "error on call stored proc! function name="@ + name
}

/// The arguments after pushing each of `more` in turn onto `args`.
pub open spec fn push_all(args: Seq<ScriptArg>, more: Seq<ScriptArg>) -> Seq<ScriptArg>
    decreases more.len(),
{
    if more.len() == 0 {
        args
    } else {
        push_all(args, more.drop_last()).push(more.last())
    }
}

/// Any pushes, of whatever types, append their arguments in order and raise
/// the argument count by their number.
pub proof fn lemma_push_count(args: Seq<ScriptArg>, more: Seq<ScriptArg>)
    ensures
        push_all(args, more) == args + more,
        push_all(args, more).len() == args.len() + more.len(),
    decreases more.len(),
{
    if more.len() == 0 {
        assert(args + more =~= args);
    } else {
        lemma_push_count(args, more.drop_last());
        assert((args + more.drop_last()).push(more.last()) =~= args + more);
    }
}

} // verus!
