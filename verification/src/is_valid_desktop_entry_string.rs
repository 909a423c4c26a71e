//! Values of type string in a desktop entry may hold all ASCII characters
//! except control characters.

use vstd::prelude::*;

use crate::text::chars_of;
use crate::text::is_control;
use crate::text::is_control_char;

verus! {

/// A character a desktop entry string may hold: ASCII, and no control
/// character.
pub open spec fn is_desktop_entry_char(c: char) -> bool {
    (c as u32) < 128 && !is_control_char(c)
}

/// A non-empty string of ASCII characters without control characters.
pub open spec fn is_valid_desktop_entry_string_spec(input: Seq<char>) -> bool {
    input.len() > 0 && forall|i: int| 0 <= i < input.len() ==> is_desktop_entry_char(#[trigger] input[i])
}

/// Whether `input` may stand as a string value in a desktop entry.
pub fn is_valid_desktop_entry_string(input: &str) -> (b: bool)
    ensures
        b == is_valid_desktop_entry_string_spec(input@),
{
    let v = chars_of(input);
    if v.len() == 0 {
        return false;
    }
    let mut i: usize = 0;
    while i < v.len()
        invariant
            i <= v.len(),
            v@ == input@,
            forall|k: int| 0 <= k < i ==> is_desktop_entry_char(#[trigger] v@[k]),
        decreases v.len() - i,
    {
        let c = v[i];
        if (c as u32) >= 128 || is_control(c) {
            return false;
        }
        i = i + 1;
    }
    true
}

} // verus!
