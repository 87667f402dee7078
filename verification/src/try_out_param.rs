//! Helper for COM-style output parameters.
//!
//! COM methods frequently report their result by filling a caller-supplied
//! output slot and returning a status.  [`try_out_param`] runs such an
//! operation against a fresh empty slot and turns the outcome into a plain
//! `Result`: the filled value on success, the operation's own error
//! unchanged on failure, and an [`E_POINTER`] error when the operation
//! reported success without filling the slot.

use vstd::prelude::*;

use crate::com_error::ComError;
use crate::com_error::E_POINTER;

verus! {

/// Runs `func` on a fresh empty output slot and returns the value it put
/// there; [`E_POINTER`] if it succeeded without setting the slot, and its
/// own error unchanged if it failed.
pub fn try_out_param<T, F: FnOnce(&mut Option<T>) -> Result<(), ComError>>(func: F) -> (r: Result<
    T,
    ComError,
>)
    requires
        forall|slot: &mut Option<T>| *slot == None::<T> ==> call_requires(func, (slot,)),
    ensures
        match r {
            Ok(value) => exists|slot: &mut Option<T>, y: Result<(), ComError>|
                #[trigger] call_ensures(func, (slot,), y) && y is Ok && *slot == None::<T>
                    && *final(slot) == Some(value),
            Err(e) => (exists|slot: &mut Option<T>|
                #[trigger] call_ensures(func, (slot,), Err::<(), ComError>(e)) && *slot
                    == None::<T>) || (e@ == E_POINTER && exists|slot: &mut Option<T>, y: Result<(), ComError>|
                #[trigger] call_ensures(func, (slot,), y) && y is Ok && *slot == None::<T>
                    && *final(slot) == None::<T>),
        },
{
    let mut out: Option<T> = None;
    let res = func(&mut out);
    match res {
        Ok(_) => match out {
            Some(value) => Ok(value),
            None => Err(ComError::from_code(E_POINTER)),
        },
        Err(e) => Err(e),
    }
}

} // verus!
