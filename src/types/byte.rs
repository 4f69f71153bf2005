use vstd::prelude::*;

use crate::types::double::Double;

verus! {

/// An 8-bit value.
#[derive(Copy, Clone, Debug)]
pub struct Byte {
    value: u8,
}

impl View for Byte {
    type V = u8;

    closed spec fn view(&self) -> u8 {
        self.value
    }
}

impl Byte {
    /// The byte holding `value`.
    pub closed spec fn spec_new(value: u8) -> Byte {
        Byte { value }
    }

    pub broadcast proof fn lemma_spec_new_view(value: u8)
        ensures
            #[trigger] Byte::spec_new(value)@ == value,
    {
    }

    pub fn new(value: u8) -> (b: Byte)
        ensures
            b == Byte::spec_new(value),
            b@ == value,
    {
        Byte { value: value }
    }

    pub fn get_raw_value(self) -> (r: u8)
        ensures
            r == self@,
    {
        self.value
    }
}

impl From<Byte> for usize {
    fn from(b: Byte) -> usize {
        b.value as usize
    }
}

impl vstd::std_specs::convert::FromSpecImpl<Byte> for usize {
    open spec fn obeys_from_spec() -> bool {
        true
    }

    open spec fn from_spec(b: Byte) -> usize {
        b@ as usize
    }
}

impl From<Byte> for u16 {
    fn from(b: Byte) -> u16 {
        b.value as u16
    }
}

impl vstd::std_specs::convert::FromSpecImpl<Byte> for u16 {
    open spec fn obeys_from_spec() -> bool {
        true
    }

    open spec fn from_spec(b: Byte) -> u16 {
        b@ as u16
    }
}

impl From<Byte> for Double {
    fn from(b: Byte) -> Double {
        Double::new_u16(b.get_raw_value() as u16)
    }
}

impl vstd::std_specs::convert::FromSpecImpl<Byte> for Double {
    open spec fn obeys_from_spec() -> bool {
        true
    }

    open spec fn from_spec(b: Byte) -> Double {
        Double::spec_new(b@ as u16)
    }
}

/// Keeps the low eight bits.
impl From<usize> for Byte {
    fn from(value: usize) -> Byte {
        Byte { value: value as u8 }
    }
}

impl vstd::std_specs::convert::FromSpecImpl<usize> for Byte {
    open spec fn obeys_from_spec() -> bool {
        true
    }

    open spec fn from_spec(value: usize) -> Byte {
        Byte::spec_new(value as u8)
    }
}

} // verus!
