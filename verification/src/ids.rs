//! Platform identifiers.

use vstd::prelude::*;
use crate::platform::{created_at_millis, creation_millis, LAST_FOUR_DIGIT_MILLIS};
use crate::reply::Timestamp;

verus! {

/// An identifier of a user, a channel or a guild: a 64-bit number that is
/// never zero. The upper 42 bits hold the time at which it was issued.
#[derive(Clone, Copy, Debug, PartialEq, Eq, Hash)]
pub struct Snowflake {
    raw: u64,
}

impl Snowflake {
    #[verifier::type_invariant]
    spec fn nonzero(self) -> bool {
        self.raw != 0
    }

    /// The number that this identifier stands for.
    pub closed spec fn value(self) -> u64 {
        self.raw
    }

    /// Accepts every number but zero.
    pub fn new(raw: u64) -> (r: Option<Snowflake>)
        ensures
            r is Some <==> raw != 0,
            r matches Some(id) ==> id.value() == raw,
    {
        if raw == 0 {
            None
        } else {
            Some(Snowflake { raw })
        }
    }

    /// The number behind the identifier.
    pub fn get(&self) -> (r: u64)
        ensures
            r == self.value(),
            r != 0,
    {
        proof {
            use_type_invariant(self);
        }
        self.raw
    }

    /// The time at which the identifier was issued. It lies between the
    /// first moment of 2015 and a day in the year 2154.
    pub fn created_at(&self) -> (r: Timestamp)
        ensures
            r.unix_millis == creation_millis(self.value()),
            0 <= r.unix_millis <= LAST_FOUR_DIGIT_MILLIS,
    {
        let raw = self.get();
        assert(raw >> 22 <= 0x3ff_ffff_ffff) by (bit_vector);
        Timestamp { unix_millis: created_at_millis(raw) }
    }
}

} // verus!
