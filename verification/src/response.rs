//! The entry point's second decision: the response owed for an upstream
//! outcome.

use vstd::prelude::*;
use vstd::string::StringExecFns;
use crate::marshal::encodable;

verus! {

/// The outcome of the one upstream completion request, as plain values:
/// the candidate texts of a successful call, or the display text of its
/// error.
pub enum CompletionOutcome {
    Choices(Vec<String>),
    Failed(String),
}

/// The fixed reply when a successful call carries no candidate at all.
pub open spec fn no_response_message() -> Seq<char> {
    "Error: No response received"@
}

/// The prefix put before an upstream error's display text.
pub open spec fn error_prefix() -> Seq<char> {
    "Error: "@
}

/// The response owed for an outcome: the first candidate text of a
/// successful call, the fixed message when the call returned none, and
/// the prefixed display text of a failed call.
pub open spec fn response_of(outcome: CompletionOutcome) -> Seq<char> {
    match outcome {
        CompletionOutcome::Choices(choices) => if choices@.len() > 0 {
            choices@[0]@
        } else {
            no_response_message()
        },
        CompletionOutcome::Failed(error) => error_prefix() + error@,
    }
}

/// Maps the outcome of the upstream request to the response string handed
/// back over the foreign boundary. Failure never crosses the boundary as
/// such: every outcome yields a string.
pub fn handle_outcome(outcome: &CompletionOutcome) -> (response: String)
    ensures
        response@ == response_of(*outcome),
{
    match outcome {
        CompletionOutcome::Choices(choices) => {
            if choices.len() > 0 {
                choices[0].clone()
            } else {
                "Error: No response received".to_owned()
            }
        },
        CompletionOutcome::Failed(error) => {
            let mut response = "Error: ".to_owned();
            response.append(error.as_str());
            response
        },
    }
}

/// Every outcome owes a non-empty response, as long as a successful
/// outcome's first candidate text is itself non-empty (an upstream that
/// answers with an empty candidate is the one input this does not cover).
pub proof fn lemma_response_nonempty(outcome: CompletionOutcome)
    requires
        match outcome {
            CompletionOutcome::Choices(choices) => choices@.len() > 0 ==> choices@[0]@.len() > 0,
            CompletionOutcome::Failed(_) => true,
        },
    ensures
        response_of(outcome).len() > 0,
{
    reveal_strlit("Error: No response received");
    reveal_strlit("Error: ");
}

/// The response can be marshaled into a C string whenever the text it
/// carries over from the outcome can: the fixed message and the error
/// prefix hold no nul character of their own.
pub proof fn lemma_response_encodable(outcome: CompletionOutcome)
    requires
        match outcome {
            CompletionOutcome::Choices(choices) => choices@.len() > 0 ==> encodable(choices@[0]@),
            CompletionOutcome::Failed(error) => encodable(error@),
        },
    ensures
        encodable(response_of(outcome)),
{
    reveal_strlit("Error: No response received");
    reveal_strlit("Error: ");
    if let CompletionOutcome::Failed(error) = outcome {
        let msg = error_prefix() + error@;
        assert forall|i: int| 0 <= i < msg.len() implies msg[i] != '\0' by {
            if i < error_prefix().len() {
                assert(msg[i] == error_prefix()[i]);
            } else {
                assert(msg[i] == error@[i - error_prefix().len()]);
            }
        }
    }
}

} // verus!
