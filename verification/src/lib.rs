//! A boundary-exposed module: two free functions and a counter object, meant
//! to be exported across a host boundary. The export layer itself lives
//! outside this crate; everything here is plain verified code.
use vstd::prelude::*;

pub mod context;
pub mod decimal;

verus! {

/// The fixed text that `rust_hello` returns.
pub open spec fn greeting_text() -> Seq<char> {
    "Hello World from Rust!"@
}

/// Returns the fixed greeting: the exact same text on every call.
pub fn rust_hello() -> (r: String)
    ensures
        r@ == greeting_text(),
{
    String::from_str("Hello World from Rust!")
}

/// Adds two signed 32-bit integers, wrapping around on overflow
/// (two's-complement semantics). Within range the result is the exact sum.
pub fn add_numbers(a: i32, b: i32) -> (r: i32)
    ensures
        r == vstd::wrapping::i32_specs::wrapping_add(a, b),
        i32::MIN <= a + b <= i32::MAX ==> r == a + b,
{
    internal_add(a, b)
}

/// Internal helper underlying `add_numbers`; not reachable from outside.
fn internal_add(a: i32, b: i32) -> (r: i32)
    ensures
        r == vstd::wrapping::i32_specs::wrapping_add(a, b),
{
    a.wrapping_add(b)
}

} // verus!
