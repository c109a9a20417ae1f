//! The lines that the embedder prints: what the native bindings log, and the
//! banner of the program.

use vstd::prelude::*;
use vstd::string::*;
use crate::value::{decimal_text, render_decimal};

verus! {

/// The first line of the program, with the version that the engine reports.
pub fn banner_line(version: &str) -> (r: String)
    ensures
        r@ == "Example of using rusty-v8: "@ + version@,
{
    let mut line = String::from_str("Example of using rusty-v8: ");
    line.append(version);
    line
}

/// The line that the embedder logs for a call of `doit`.
pub fn doit_log_line(text: &str) -> (r: String)
    ensures
        r@ == "doit argument = "@ + text@,
{
    let mut line = String::from_str("doit argument = ");
    line.append(text);
    line
}

/// The line that the embedder logs for a read of `age`.
pub fn age_getter_log_line(age: u32) -> (r: String)
    ensures
        r@ == "age_getter: current value: "@ + decimal_text(age as nat),
{
    let mut line = String::from_str("age_getter: current value: ");
    line.append(render_decimal(age as u64).as_str());
    line
}

/// The line that the embedder logs for a write to `age` that was stored.
pub fn age_setter_log_line(new_value: u32) -> (r: String)
    ensures
        r@ == "age_setter: new_value "@ + decimal_text(new_value as nat),
{
    let mut line = String::from_str("age_setter: new_value ");
    line.append(render_decimal(new_value as u64).as_str());
    line
}

} // verus!
