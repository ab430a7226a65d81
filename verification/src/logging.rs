//! What the log may say of the texts it handles.
use vstd::prelude::*;

verus! {

/// The number of characters of a text, which the log records in place of
/// the text itself.
pub fn safe_text_len(text: &str) -> (n: usize)
    ensures
        n == text@.len(),
{
    text.unicode_len()
}

} // verus!
