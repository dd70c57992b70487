//! Type-safe snowflake IDs.
//!
//! An [`Id`] wraps the 64-bit snowflake and carries a marker type so that,
//! for example, a role's ID cannot be passed where a user's ID is required.

use vstd::prelude::*;

use crate::text::{spec_dec, u64_to_dec};

verus! {

/// A non-zero Discord snowflake, tagged with the resource kind it names.
#[derive(Debug, PartialEq, Eq, Hash, PartialOrd, Ord)]
pub struct Id<T> {
    value: u64,
    marker: core::marker::PhantomData<T>,
}

impl<T> Clone for Id<T> {
    fn clone(&self) -> (r: Self)
        ensures
            r == *self,
    {
        Id { value: self.value, marker: core::marker::PhantomData }
    }
}

impl<T> Copy for Id<T> {

}

impl<T> Id<T> {
    /// The wrapped snowflake.
    pub closed spec fn spec_get(&self) -> u64 {
        self.value
    }

    /// Wrap a snowflake.  Snowflakes are never zero.
    pub fn new(n: u64) -> (r: Self)
        requires
            n != 0,
        ensures
            r.spec_get() == n,
    {
        Id { value: n, marker: core::marker::PhantomData }
    }

    /// The inner snowflake value.
    pub fn get(&self) -> (r: u64)
        ensures
            r == self.spec_get(),
    {
        self.value
    }

    /// The decimal rendering of the snowflake, as it appears in JSON and in
    /// mention syntax.
    pub fn to_dec_string(&self) -> (r: String)
        ensures
            r@ == spec_dec(self.spec_get() as nat),
    {
        u64_to_dec(self.value)
    }

    /// The milliseconds-since-epoch creation time encoded in the snowflake:
    /// the top 42 bits, offset from the Discord epoch.
    pub fn timestamp_ms(&self) -> (r: u64)
        ensures
            r == self.spec_get() / 0x40_0000 + 1_420_070_400_000,
    {
        proof {
            vstd::arithmetic::div_mod::lemma_div_is_ordered(
                self.value as int,
                u64::MAX as int,
                0x40_0000,
            );
        }
        self.value / 0x40_0000 + 1_420_070_400_000
    }
}

} // verus!
