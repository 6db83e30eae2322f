//! Tick arithmetic shared by the timers. Ticks are 32 bits wide and wrap.

use vstd::prelude::*;

verus! {

/// The tick at which an alarm set at `reference` for `dt` ticks later
/// expires: their sum, wrapped to 32 bits.
pub open spec fn expiry(reference: u32, dt: u32) -> u32 {
    if reference + dt < 0x1_0000_0000 {
        (reference + dt) as u32
    } else {
        (reference + dt - 0x1_0000_0000) as u32
    }
}

/// Computes `expiry`.
pub fn expire_at(reference: u32, dt: u32) -> (expire: u32)
    ensures
        expire == expiry(reference, dt),
{
    reference.wrapping_add(dt)
}

} // verus!
