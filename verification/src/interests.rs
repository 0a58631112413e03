//! The set of conditions a registration asks to be told about.

use vstd::prelude::*;

verus! {

const WRITABLE: u8 = 0b0000_0001;

const READABLE: u8 = 0b0000_0010;

/// Interest in read events, write events, or both. A value always names at
/// least one of the two.
#[derive(Clone, Copy, Debug)]
pub struct Interests {
    bits: u8,
}

impl Interests {
    /// Every value names at least one condition and nothing but the two.
    #[verifier::type_invariant]
    pub closed spec fn wf(self) -> bool {
        self.bits == 1 || self.bits == 2 || self.bits == 3
    }

    /// Whether read events are asked for.
    pub closed spec fn spec_is_readable(&self) -> bool {
        self.bits & READABLE != 0
    }

    /// Whether write events are asked for.
    pub closed spec fn spec_is_writable(&self) -> bool {
        self.bits & WRITABLE != 0
    }

    /// Interest in read events only.
    pub fn readable() -> (interests: Interests)
        ensures
            interests.wf(),
            interests.is_readable(),
            !interests.is_writable(),
    {
        assert(2u8 & 2u8 != 0 && 2u8 & 1u8 == 0) by (bit_vector);
        Interests { bits: READABLE }
    }

    /// Interest in write events only.
    pub fn writable() -> (interests: Interests)
        ensures
            interests.wf(),
            !interests.is_readable(),
            interests.is_writable(),
    {
        assert(1u8 & 2u8 == 0 && 1u8 & 1u8 != 0) by (bit_vector);
        Interests { bits: WRITABLE }
    }

    /// Everything either side asks for.
    pub fn union(self, other: Interests) -> (interests: Interests)
        ensures
            interests.wf(),
            interests.is_readable() == (self.is_readable() || other.is_readable()),
            interests.is_writable() == (self.is_writable() || other.is_writable()),
    {
        proof {
            use_type_invariant(self);
            use_type_invariant(other);
        }
        let a: u8 = self.bits;
        let b: u8 = other.bits;
        assert(((a | b) == 1 || (a | b) == 2 || (a | b) == 3) && (((a | b) & 2 != 0) == (a & 2 != 0
            || b & 2 != 0)) && (((a | b) & 1 != 0) == (a & 1 != 0 || b & 1 != 0))) by (bit_vector)
            requires
                a == 1 || a == 2 || a == 3,
                b == 1 || b == 2 || b == 3,
        ;
        Interests { bits: a | b }
    }

    /// Whether read events are asked for.
    #[verifier::when_used_as_spec(spec_is_readable)]
    pub fn is_readable(&self) -> (yes: bool)
        ensures
            yes == self.spec_is_readable(),
    {
        self.bits & READABLE != 0
    }

    /// Whether write events are asked for.
    #[verifier::when_used_as_spec(spec_is_writable)]
    pub fn is_writable(&self) -> (yes: bool)
        ensures
            yes == self.spec_is_writable(),
    {
        self.bits & WRITABLE != 0
    }

    /// Every value asks for something: one that does not ask for write
    /// events asks for read events.
    pub proof fn asks_for_something(self)
        requires
            self.wf(),
        ensures
            self.is_readable() || self.is_writable(),
    {
        let a: u8 = self.bits;
        assert(a & 2 != 0 || a & 1 != 0) by (bit_vector)
            requires
                a == 1 || a == 2 || a == 3,
        ;
    }
}

} // verus!
