//! The entry point's first decision: what to do with the caller's input.

use vstd::prelude::*;
use vstd::utf8::{decode_utf8, valid_utf8};
use crate::marshal::encodable;

verus! {

/// What the lossy UTF-8 conversion makes of a byte sequence. The
/// conversion is a pure function of the bytes alone.
pub uninterp spec fn lossy_utf8(bytes: Seq<u8>) -> Seq<char>;

/// Relies on String::from_utf8_lossy: a pure conversion of the bytes that
/// decodes valid UTF-8 unchanged and replaces invalid sequences with the
/// Unicode replacement character instead of failing.
#[verifier::external_body]
fn decode_lossy(bytes: &Vec<u8>) -> (text: String)
    ensures
        text@ == lossy_utf8(bytes@),
        valid_utf8(bytes@) ==> text@ == decode_utf8(bytes@),
{
    String::from_utf8_lossy(bytes.as_slice()).into_owned()
}

/// The fixed reply to a null input pointer.
pub open spec fn null_input_message() -> Seq<char> {
    "Error: WTF - this is a null pointer"@
}

/// True when `part` occurs contiguously inside `text`.
pub open spec fn contains_seq(text: Seq<char>, part: Seq<char>) -> bool {
    exists|k: int|
        0 <= k && k + part.len() <= text.len() && #[trigger] text.subrange(k, k + part.len())
            == part
}

/// What the foreign entry point does with the caller's input: reply at
/// once without querying upstream, or query upstream with the decoded
/// prompt.
pub enum InputAction {
    Reply(String),
    Query(String),
}

/// Decides the entry point's first step from the bytes under the caller's
/// pointer (`None` when the pointer was null). A null pointer draws the
/// fixed reply and no query; any byte sequence at all, valid UTF-8 or not,
/// becomes a prompt for the upstream query, lossily decoded rather than
/// rejected.
pub fn handle_input(input: Option<Vec<u8>>) -> (action: InputAction)
    ensures
        match input {
            None => action matches InputAction::Reply(reply) && reply@ == null_input_message(),
            Some(bytes) => {
                &&& action matches InputAction::Query(prompt)
                &&& prompt@ == lossy_utf8(bytes@)
                &&& valid_utf8(bytes@) ==> prompt@ == decode_utf8(bytes@)
            },
        },
{
    match input {
        None => InputAction::Reply("Error: WTF - this is a null pointer".to_owned()),
        Some(bytes) => InputAction::Query(decode_lossy(&bytes)),
    }
}

/// The reply to a null input pointer names the null pointer, is not empty,
/// and can always be marshaled into a C string — whatever the environment
/// or the upstream service holds, since no query is made.
pub proof fn lemma_null_input_reply()
    ensures
        null_input_message().len() > 0,
        contains_seq(null_input_message(), "null pointer"@),
        encodable(null_input_message()),
{
    reveal_strlit("Error: WTF - this is a null pointer");
    reveal_strlit("null pointer");
    assert(null_input_message().subrange(23, 23 + "null pointer"@.len() as int) =~= "null pointer"@);
}

} // verus!
