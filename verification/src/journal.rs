//! The journal command line's checks and decisions; the prompts and screens
//! around them belong to the terminal layer.

use vstd::prelude::*;
use vstd::string::StringExecFns;
use vstd::string::StringSliceAdditionalSpecFns;

verus! {

/// A loose email check: an `@` with something before it, a dot, and more
/// than five bytes.
pub open spec fn spec_valid_email(bytes: Seq<u8>) -> bool {
    &&& exists|i: int| 1 <= i < bytes.len() && bytes[i] == 64  // '@'
    &&& exists|i: int| 0 <= i < bytes.len() && bytes[i] == 46  // '.'
    &&& bytes.len() > 5
}

/// Whether a byte occurs in the string at or after position `from`.
pub(crate) fn contains_byte_from(s: &str, b: u8, from: usize) -> (r: bool)
    ensures
        r == exists|i: int| from <= i < s.spec_bytes().len() && s.spec_bytes()[i] == b,
{
    let bytes = s.as_bytes();
    let n = bytes.len();
    let mut k: usize = from;
    while k < n
        invariant
            from <= k,
            n == bytes@.len(),
            bytes@ == s.spec_bytes(),
            forall|i: int| from <= i < k ==> bytes@[i] != b,
        decreases n - k,
    {
        if bytes[k] == b {
            return true;
        }
        k = k + 1;
    }
    false
}

/// Validates an email address loosely: an `@` that is not the first byte, a
/// dot anywhere, and more than five bytes in all.
pub fn validate_email(email: &str) -> (r: bool)
    ensures
        r == spec_valid_email(email.spec_bytes()),
{
    let bytes = email.as_bytes();
    contains_byte_from(email, 64, 1) && contains_byte_from(email, 46, 0) && bytes.len() > 5
}

/// A stand-in clipboard: it accepts any text and always reports the same
/// content.
pub struct Clipboard;

impl Clipboard {
    /// A fresh stand-in clipboard; creating one never fails.
    pub fn new() -> (r: Clipboard) {
        Clipboard
    }

    /// Accepts a text and drops it.
    pub fn set_text(&self, _text: String) {
    }

    /// The stand-in content.
    pub fn get_text(&self) -> (r: Option<String>)
        ensures
            r matches Some(s) && s@ == "Clipboard content"@,
    {
        Some("Clipboard content".to_owned())
    }
}

} // verus!
