//! The console: what the routines have to say, as lines of text in the order
//! in which they are written.

use crate::constants::constants;
use crate::decimal::{decimal, line_with, signed_decimal};
use crate::mutability::{mutability, Mutability};
use crate::scalar_types::{scalar_types, ScalarTypes};
use crate::shadowing::{shadowing, Shadowing};
use vstd::prelude::*;
use vstd::string::*;

verus! {

/// The lines that report what [`mutability`] has seen.
pub open spec fn mutability_lines(seen: Mutability) -> Seq<Seq<char>> {
    seq![
        "y is "@ + signed_decimal(seen.y as int),
        "x is "@ + signed_decimal(seen.x_initial as int),
        "x is updated to "@ + signed_decimal(seen.x_updated as int),
    ]
}

/// The line that reports the constant read by [`constants`].
pub open spec fn constants_lines(seconds: u32) -> Seq<Seq<char>> {
    seq!["Three hours in seconds: "@ + signed_decimal(seconds as int)]
}

/// The lines that report what [`shadowing`] has seen.
pub open spec fn shadowing_lines(seen: Shadowing) -> Seq<Seq<char>> {
    seq![
        "The value of y in the inner scope is: "@ + signed_decimal(seen.inner as int),
        "The value of y is "@ + signed_decimal(seen.outer as int),
        "There are "@ + signed_decimal(seen.spaces as int) + " spaces."@,
    ]
}

/// Everything that [`run`] writes: the heading, then the lines of the three
/// routines that have something to report.
pub open spec fn transcript() -> Seq<Seq<char>> {
    seq![
        "Rust book chapter 3."@,
        "y is 10"@,
        "x is 5"@,
        "x is updated to 6"@,
        "Three hours in seconds: 10800"@,
        "The value of y in the inner scope is: 12"@,
        "The value of y is 6"@,
        "There are 5 spaces."@,
    ]
}

/// Writes the report of [`mutability`] at the end of `out`.
pub fn show_mutability(out: &mut Vec<String>, seen: &Mutability)
    ensures
        final(out).deep_view() == old(out).deep_view() + mutability_lines(*seen),
{
    proof {
        reveal_strlit("");
    }
    out.push(line_with("y is ", seen.y as i128, ""));
    out.push(line_with("x is ", seen.x_initial as i128, ""));
    out.push(line_with("x is updated to ", seen.x_updated as i128, ""));
}

/// Writes the report of [`constants`] at the end of `out`.
pub fn show_constants(out: &mut Vec<String>, seconds: u32)
    ensures
        final(out).deep_view() == old(out).deep_view() + constants_lines(seconds),
{
    proof {
        reveal_strlit("");
    }
    out.push(line_with("Three hours in seconds: ", seconds as i128, ""));
}

/// Writes the report of [`shadowing`] at the end of `out`.
pub fn show_shadowing(out: &mut Vec<String>, seen: &Shadowing)
    ensures
        final(out).deep_view() == old(out).deep_view() + shadowing_lines(*seen),
{
    proof {
        reveal_strlit("");
    }
    out.push(line_with("The value of y in the inner scope is: ", seen.inner as i128, ""));
    out.push(line_with("The value of y is ", seen.outer as i128, ""));
    out.push(line_with("There are ", seen.spaces as i128, " spaces."));
}

/// Runs the four routines in order and returns what they write: the heading
/// and seven lines. The routine of the scalar types writes nothing.
pub fn run() -> (lines: Vec<String>)
    ensures
        lines.deep_view() == transcript(),
{
    let mut lines: Vec<String> = Vec::new();
    lines.push(String::from_str("Rust book chapter 3."));
    show_mutability(&mut lines, &mutability());
    show_constants(&mut lines, constants());
    show_shadowing(&mut lines, &shadowing());
    let _slots: ScalarTypes = scalar_types();
    proof {
        reveal_with_fuel(decimal, 5);
        reveal_strlit("Rust book chapter 3.");
        reveal_strlit("y is ");
        reveal_strlit("y is 10");
        reveal_strlit("x is ");
        reveal_strlit("x is 5");
        reveal_strlit("x is updated to ");
        reveal_strlit("x is updated to 6");
        reveal_strlit("Three hours in seconds: ");
        reveal_strlit("Three hours in seconds: 10800");
        reveal_strlit("The value of y in the inner scope is: ");
        reveal_strlit("The value of y in the inner scope is: 12");
        reveal_strlit("The value of y is ");
        reveal_strlit("The value of y is 6");
        reveal_strlit("There are ");
        reveal_strlit(" spaces.");
        reveal_strlit("There are 5 spaces.");
        assert(lines.deep_view() =~~= transcript());
    }
    lines
}

} // verus!
