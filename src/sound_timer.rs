use vstd::prelude::*;

verus! {

/// The sound timer. The interpreter reports setting it as unimplemented; the host plays
/// the tone.
pub struct SoundTimer {}

impl SoundTimer {
    pub fn init_timer() -> SoundTimer {
        SoundTimer {  }
    }
}

} // verus!
