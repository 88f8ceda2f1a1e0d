//! Small helpers on owned strings and their views.

use vstd::prelude::*;
use vstd::string::*;

verus! {

/// The view of an optional string: the characters it holds, if any.
pub open spec fn opt_text(value: Option<String>) -> Option<Seq<char>> {
    match value {
        Some(s) => Some(s@),
        None => None,
    }
}

/// Copies an optional string, keeping its characters.
pub fn clone_opt_text(value: &Option<String>) -> (copy: Option<String>)
    ensures
        opt_text(copy) == opt_text(*value),
{
    match value {
        Some(s) => Some(s.clone()),
        None => None,
    }
}

/// Joins two pieces of text into a fresh string.
pub fn concat2(first: &str, second: &str) -> (joined: String)
    ensures
        joined@ == first@ + second@,
{
    let mut joined = String::from_str(first);
    joined.append(second);
    joined
}

/// An optional text that counts only where it is not empty.
pub open spec fn non_empty(value: Option<Seq<char>>) -> Option<Seq<char>> {
    match value {
        Some(text) => if text.len() > 0 {
            Some(text)
        } else {
            None
        },
        None => None,
    }
}

/// Copies an optional string where it holds a text that is not empty.
pub fn clone_non_empty(value: &Option<String>) -> (copy: Option<String>)
    ensures
        opt_text(copy) == non_empty(opt_text(*value)),
{
    match value {
        Some(text) => if text.as_str().is_empty() {
            None
        } else {
            Some(text.clone())
        },
        None => None,
    }
}

} // verus!
