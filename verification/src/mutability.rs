//! Mutability: a binding keeps the value it was declared with unless it was
//! declared `mut`, and then it may take a new value of the same type.

use vstd::prelude::*;

verus! {

/// What [`mutability`] reads from its bindings, in the order of the reads.
#[derive(Clone, Copy, Debug, PartialEq, Eq)]
pub struct Mutability {
    /// The immutable binding `y`.
    pub y: i32,
    /// The mutable binding `x` before it is assigned again.
    pub x_initial: i32,
    /// `x` after the assignment.
    pub x_updated: i32,
}

/// Declares an immutable `y` and a mutable `x`, reads both, assigns `x` anew
/// and reads it once more.
pub fn mutability() -> (seen: Mutability)
    ensures
        seen.y == 10,
        seen.x_initial == 5,
        seen.x_updated == 6,
{
    let y: i32 = 10;
    // `y = 11;` is refused by the compiler: `y` was not declared `mut`.

    let mut x: i32 = 5;
    let x_initial: i32 = x;
    x = 6;
    // `x = "six";` is refused as well: `mut` frees the value, not the type.
    Mutability { y, x_initial, x_updated: x }
}

} // verus!
