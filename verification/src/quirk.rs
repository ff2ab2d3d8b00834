use vstd::prelude::*;

verus! {

/// Compatibility switches that select between the behaviours of historically
/// divergent CHIP-8 interpreters. A value is fixed when a machine is built
/// and only ever read afterwards.
#[derive(Clone, Copy, Debug)]
pub struct Quirk {
    /// `OR`, `AND` and `XOR` clear VF after the operation.
    pub vf_reset: bool,
    /// Block register transfers advance I past the bytes they moved.
    pub mem_inc: bool,
    /// Present for configuration compatibility; no instruction reads it.
    pub display_wait: bool,
    /// Present for configuration compatibility; no instruction reads it
    /// (sprites always wrap around the screen edges).
    pub clipping: bool,
    /// Shifts read Vx instead of Vy.
    pub shift_x: bool,
    /// Jump-with-offset adds the register named by the top nibble of the
    /// target address instead of V0.
    pub jump_vx: bool,
}

} // verus!
