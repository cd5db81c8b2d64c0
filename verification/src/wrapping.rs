use vstd::prelude::*;

verus! {

/// A 32-bit unsigned integer whose addition wraps around on overflow.
#[derive(Debug, Clone, Copy, PartialEq, Eq, Structural)]
pub struct WrappingU32 {
    value: u32,
}

impl WrappingU32 {
    /// The wrapped number.
    pub closed spec fn value(self) -> u32 {
        self.value
    }

    /// Wraps a number.
    pub fn new(value: u32) -> (r: Self)
        ensures
            r.value() == value,
    {
        Self { value }
    }

    /// The number that `self + other` wraps: the sum of the two, modulo 2^32.
    pub open spec fn wrapping_sum(self, other: Self) -> int {
        (self.value() + other.value()) % 0x1_0000_0000
    }

    /// Two values that wrap the same number are equal.
    pub proof fn lemma_equal_by_value(self, other: Self)
        requires
            self.value() == other.value(),
        ensures
            self == other,
    {
    }
}

impl vstd::std_specs::ops::AddSpecImpl for WrappingU32 {
    open spec fn obeys_add_spec() -> bool {
        true
    }

    open spec fn add_req(self, other: WrappingU32) -> bool {
        true
    }

    closed spec fn add_spec(self, other: WrappingU32) -> WrappingU32 {
        WrappingU32 { value: self.wrapping_sum(other) as u32 }
    }
}

impl core::ops::Add for WrappingU32 {
    type Output = Self;

    /// The sum of the two numbers, wrapped around at 2^32.
    fn add(self, other: WrappingU32) -> (r: Self)
        ensures
            r.value() == self.wrapping_sum(other),
    {
        Self { value: self.value.wrapping_add(other.value) }
    }
}

} // verus!
