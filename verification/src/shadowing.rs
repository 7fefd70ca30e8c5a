//! Shadowing: a new binding may take the name of an earlier one. Reads of the
//! name then find the new binding until its scope ends; the earlier binding is
//! not changed, and the new one may have another type.

use vstd::prelude::*;
use vstd::string::is_ascii_spec_bytes;

verus! {

/// What [`shadowing`] reads from its bindings.
#[derive(Clone, Copy, Debug, PartialEq, Eq)]
pub struct Shadowing {
    /// `y` as read inside the inner scope, where a third `y` shadows the second.
    pub inner: i32,
    /// `y` as read after the inner scope has ended.
    pub outer: i32,
    /// `spaces` after a length has shadowed the text it was measured from.
    pub spaces: usize,
}

/// Declares `y` as 5, shadows it with `y + 1`, and in an inner scope shadows
/// that with `y * 2`; reads `y` inside the scope and again after it. Then
/// shadows a text of five spaces with its length.
///
/// The read after the inner scope finds the second binding unchanged.
pub fn shadowing() -> (seen: Shadowing)
    ensures
        seen.inner == (5 + 1) * 2,
        seen.outer == 5 + 1,
        seen.spaces == "     "@.len(),
        seen.spaces == 5,
{
    let y: i32 = 5;

    let y: i32 = y + 1;

    let inner: i32 = {
        let y: i32 = y * 2;
        y
    };

    let outer: i32 = y;

    // A shadow is a new binding, so it may have another type: here a length
    // takes the name of the text it was measured from. With `let mut spaces`
    // the assignment `spaces = spaces.len();` is refused by the compiler.
    let spaces: &str = "     ";
    proof {
        reveal_strlit("     ");
        is_ascii_spec_bytes(spaces);
    }
    let spaces: usize = spaces.len();
    Shadowing { inner, outer, spaces }
}

} // verus!
