//! Small free functions: greetings, stubbed processing, and generic
//! pass-throughs.

use vstd::prelude::*;
use vstd::string::StringExecFns;

verus! {

/// Greets `name`.
pub fn simple_function(name: &str) -> (r: String)
    ensures
        r@ == "Hello, "@ + name@,
{
    let mut s = String::new();
    s.append("Hello, ");
    s.append(name);
    proof {
        assert(s@ =~= "Hello, "@ + name@);
    }
    s
}

/// Processes an id with options; the processing itself is a stub, so
/// the answer is always the fixed success text.
pub fn complex_function(id: u32, options: Vec<String>) -> (r: Result<String, String>)
    ensures
        r matches Ok(m) && m@ == "result"@,
{
    let mut s = String::new();
    s.append("result");
    proof {
        assert(s@ =~= "result"@);
    }
    Ok(s)
}

/// Renders any displayable value as a string.
pub fn generic_function<T: core::fmt::Display>(value: T) -> (r: String)
    ensures
        vstd::string::to_string_from_display_ensures::<T>(&value, r),
{
    value.to_string()
}

/// Hands a borrowed string back unchanged, with its lifetime.
pub fn with_lifetime<'a>(s: &'a str) -> (r: &'a str)
    ensures
        r@ == s@,
{
    s
}

/// Hands a clonable, displayable value back unchanged.
pub fn constrained_generic<T>(value: T) -> (r: T) where T: Clone + core::fmt::Display
    ensures
        r == value,
{
    value
}

} // verus!
