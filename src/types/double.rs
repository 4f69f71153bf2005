use vstd::prelude::*;

use crate::types::byte::Byte;

verus! {

/// A 16-bit value.
#[derive(Copy, Clone, Debug)]
pub struct Double {
    value: u16,
}

impl View for Double {
    type V = u16;

    closed spec fn view(&self) -> u16 {
        self.value
    }
}

impl Double {
    /// The double holding `value`.
    pub closed spec fn spec_new(value: u16) -> Double {
        Double { value }
    }

    pub broadcast proof fn lemma_spec_new_view(value: u16)
        ensures
            #[trigger] Double::spec_new(value)@ == value,
    {
    }

    pub fn new_u16(value: u16) -> (d: Double)
        ensures
            d == Double::spec_new(value),
            d@ == value,
    {
        Double { value: value }
    }

    /// The double holding `value`, which must fit in 16 bits.
    pub fn new_usize(value: usize) -> (d: Double)
        requires
            value <= u16::MAX,
        ensures
            d == Double::spec_new(value as u16),
            d@ == value,
    {
        Double { value: value as u16 }
    }

    pub fn get_raw_value(self) -> (r: u16)
        ensures
            r == self@,
    {
        self.value
    }
}

/// Keeps the low eight bits.
impl From<Double> for Byte {
    fn from(d: Double) -> Byte {
        Byte::new(d.value as u8)
    }
}

impl vstd::std_specs::convert::FromSpecImpl<Double> for Byte {
    open spec fn obeys_from_spec() -> bool {
        true
    }

    open spec fn from_spec(d: Double) -> Byte {
        Byte::spec_new(d@ as u8)
    }
}

/// Keeps the low sixteen bits.
impl From<usize> for Double {
    fn from(value: usize) -> Double {
        Double { value: value as u16 }
    }
}

impl vstd::std_specs::convert::FromSpecImpl<usize> for Double {
    open spec fn obeys_from_spec() -> bool {
        true
    }

    open spec fn from_spec(value: usize) -> Double {
        Double::spec_new(value as u16)
    }
}

/// Adds an offset; the sum must fit in 16 bits.
impl std::ops::Add<usize> for Double {
    type Output = Double;

    fn add(self, second: usize) -> Double {
        Double::new_usize(self.get_raw_value() as usize + second)
    }
}

impl vstd::std_specs::ops::AddSpecImpl<usize> for Double {
    open spec fn obeys_add_spec() -> bool {
        true
    }

    open spec fn add_req(self, second: usize) -> bool {
        self@ + second <= u16::MAX
    }

    open spec fn add_spec(self, second: usize) -> Double {
        Double::spec_new((self@ + second) as u16)
    }
}

} // verus!
