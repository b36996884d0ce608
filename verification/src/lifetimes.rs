//! References and how long they live: the longer of two texts, and an
//! excerpt that borrows from a text.

use crate::slice::{is_first_stop, text_before};
use vstd::prelude::*;
use vstd::utf8::encode_utf8;

verus! {

/// The byte of a full stop.
pub const FULL_STOP: u8 = 0x2e;

/// Lets a reference outlive what it points to, without ever using it
/// afterwards.
pub fn dangling_ref() {
    let r: &i32;
    {
        let x: i32 = 5;
        r = &x;
        assert(*r == 5);
    }
}

/// The same, with the two scopes in view: that of the reference begins
/// before that of the number and ends after it.
pub fn borrow_checker() {
    let r: &i32;
    {
        let x: i32 = 5;
        r = &x;
        assert(*r == 5);
    }
}

/// The longer of two texts, by their length in bytes; the second where
/// they are equally long.
pub fn longest<'a>(x: &'a str, y: &'a str) -> (longer: &'a str)
    ensures
        longer@ == if x.len() > y.len() {
            x@
        } else {
            y@
        },
{
    if x.len() > y.len() {
        x
    } else {
        y
    }
}

/// Takes the longer of two texts of which the second lives in a scope of
/// its own.
pub fn use_longest_with_scope() {
    let string1 = String::from_str("long string is long");
    let result;
    {
        let string2 = String::from_str("xyz");
        result = longest(string1.as_str(), string2.as_str());
        assert(result@ == string1@ || result@ == string2@);
    }
}

/// The first of two texts.
pub fn longest_one_lifetime<'a>(x: &'a str, y: &str) -> (first: &'a str)
    ensures
        first == x,
{
    x
}

/// A part of a text, borrowed from it.
pub struct ImportantExcerpt<'a> {
    pub part: &'a str,
}

/// Takes as an excerpt what a text says before its first full stop.
pub fn use_lifetime_struct() {
    let novel = String::from_str("some string about a novel");
    let first_sentence = text_before(novel.as_str(), FULL_STOP);
    let i = ImportantExcerpt { part: first_sentence };
    assert(is_first_stop(encode_utf8(novel@), FULL_STOP, encode_utf8(i.part@).len() as int));
}

impl<'a> ImportantExcerpt<'a> {
    /// The level of every excerpt, which is 3.
    pub fn level(&self) -> (level: i32)
        ensures
            level == 3,
    {
        3
    }
}

/// Binds a name to a text that lives as long as the program.
pub fn static_lifetime() {
    let s: &'static str = "I will live forever!";
}

} // verus!
