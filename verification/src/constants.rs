//! A compile-time constant: a named value with an explicit type, made of
//! literal arithmetic only.

use vstd::prelude::*;

verus! {

/// The number of seconds in three hours, written as the product it stands for.
pub const THREE_HOURS_IN_SECONDS: u32 = 60 * 60 * 3;

/// Reads the constant and hands back the value a reader of it sees.
pub fn constants() -> (seconds: u32)
    ensures
        seconds == THREE_HOURS_IN_SECONDS,
        seconds == 60 * 60 * 3,
        seconds == 10_800,
{
    THREE_HOURS_IN_SECONDS
}

} // verus!
