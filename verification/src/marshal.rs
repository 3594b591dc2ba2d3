//! When a response can be marshaled into a null-terminated C string.

use vstd::prelude::*;
use vstd::string::StrSliceExecFns;

verus! {

/// True when the text can back a null-terminated C string: it holds no
/// embedded nul character.
pub open spec fn encodable(text: Seq<char>) -> bool {
    forall|i: int| 0 <= i < text.len() ==> text[i] != '\0'
}

/// Decides whether a text can be marshaled into a null-terminated C
/// string. Marshaling fails exactly on an embedded nul character; that
/// failure is the one case in which the foreign caller receives a null
/// pointer instead of a string.
pub fn can_encode(text: &str) -> (ok: bool)
    ensures
        ok == encodable(text@),
{
    let len = text.unicode_len();
    let mut i: usize = 0;
    while i < len
        invariant
            0 <= i <= len,
            len == text@.len(),
            forall|j: int| 0 <= j < i ==> text@[j] != '\0',
        decreases len - i,
    {
        if text.get_char(i) == '\0' {
            return false;
        }
        i = i + 1;
    }
    true
}

} // verus!
