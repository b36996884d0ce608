//! Handing strings to functions and getting them back, and working on a
//! string through a reference.

use vstd::prelude::*;
use vstd::utf8::encode_utf8;

verus! {

/// Takes one string from a function that makes it, and passes a second one
/// through a function that hands it back.
pub fn return_values_and_scope() {
    let s1 = gives_ownership();
    let s2 = String::from_str("hello");
    let s3 = takes_and_gives_back(s2);
    assert(s1@ == "hello"@);
    assert(s3@ == "hello"@);
}

/// A new string that reads `hello`.
pub fn gives_ownership() -> (some_string: String)
    ensures
        some_string@ == "hello"@,
{
    let some_string = String::from_str("hello");
    some_string
}

/// The string it was given.
pub fn takes_and_gives_back(a_string: String) -> (same: String)
    ensures
        same == a_string,
{
    a_string
}

/// The length of `s`, counted in bytes.
pub fn calculate_length(s: &String) -> (length: usize)
    ensures
        length == encode_utf8(s@).len(),
{
    s.as_str().as_bytes().len()
}

/// Appends `, world` to the string.
pub fn change(some_string: &mut String)
    ensures
        final(some_string)@ == old(some_string)@ + ", world"@,
{
    some_string.append(", world");
}

/// A new string that reads `hello`, handed out as a value.
pub fn no_dangling_ref() -> (s: String)
    ensures
        s@ == "hello"@,
{
    let s = String::from_str("hello");
    s
}

} // verus!
