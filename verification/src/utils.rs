//! Small helpers for the values of a command line.

use vstd::prelude::*;

verus! {

/// The value that was given, or `default` where none was.
pub fn get_value_or_default<T>(value: Option<T>, default: T) -> (r: T)
    ensures
        r == match value {
            Some(v) => v,
            None => default,
        },
{
    match value {
        Some(v) => v,
        None => default,
    }
}

} // verus!
