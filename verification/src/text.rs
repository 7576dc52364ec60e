//! Putting sentences together.

use vstd::prelude::*;
use vstd::string::StringExecFns;

verus! {

/// Joins a fixed opening and what follows it.
pub(crate) fn join(opening: &str, rest: &str) -> (text: String)
    ensures
        text@ == opening@ + rest@,
{
    let mut text = opening.to_owned();
    text.append(rest);
    text
}

/// Copies a text that may be absent.
pub(crate) fn copy_text(text: &Option<String>) -> (copy: Option<String>)
    ensures
        copy.deep_view() == text.deep_view(),
{
    match text {
        Some(s) => Some(s.clone()),
        None => None,
    }
}

} // verus!
