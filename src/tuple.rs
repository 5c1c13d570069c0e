//! Reading optional tuples.

use vstd::prelude::*;
use crate::error::BindError;

verus! {

/// Decodes an optional tuple with `decode`. An absent tuple decodes to "no
/// value" without consulting the decoder; a present one decodes to whatever
/// the decoder gives, wrapped as present.
pub fn decode_opt<T, V, F: Fn(&T) -> Result<V, BindError>>(tuple: &Option<T>, decode: F) -> (r:
    Result<Option<V>, BindError>)
    requires
        tuple matches Some(t) ==> call_requires(decode, (&t,)),
    ensures
        tuple is None ==> r matches Ok(None),
        tuple matches Some(t) ==> exists|d: Result<V, BindError>|
            call_ensures(decode, (&t,), d) && match d {
                Ok(v) => r matches Ok(Some(w)) && w == v,
                Err(e) => r matches Err(x) && x == e,
            },
{
    match tuple {
        None => Ok(None),
        Some(t) => {
            let d = decode(t);
            match d {
                Ok(v) => Ok(Some(v)),
                Err(e) => Err(e),
            }
        },
    }
}

} // verus!
