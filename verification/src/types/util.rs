//! Small shared helpers for the typed model.

use vstd::prelude::*;

verus! {

/// Whether a flag is unset; used when deciding which optional boolean fields
/// to keep off the wire.
pub fn is_false(value: &bool) -> (r: bool)
    ensures
        r == !*value,
{
    !*value
}

} // verus!
