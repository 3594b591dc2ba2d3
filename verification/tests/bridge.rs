use prompt_query::input::{handle_input, InputAction};
use prompt_query::marshal::can_encode;
use prompt_query::response::{handle_outcome, CompletionOutcome};

#[test]
fn null_pointer_draws_fixed_reply() {
    match handle_input(None) {
        InputAction::Reply(message) => {
            assert_eq!(message, "Error: WTF - this is a null pointer");
        }
        InputAction::Query(_) => panic!("a null pointer must not reach the upstream query"),
    }
}

#[test]
fn valid_utf8_decodes_unchanged() {
    match handle_input(Some(b"Hello, world!".to_vec())) {
        InputAction::Query(prompt) => assert_eq!(prompt, "Hello, world!"),
        InputAction::Reply(_) => panic!("a non-null input must reach the upstream query"),
    }
}

#[test]
fn invalid_bytes_decode_lossily() {
    match handle_input(Some(vec![0xff, 0xfe, b'a'])) {
        InputAction::Query(prompt) => assert_eq!(prompt, "\u{fffd}\u{fffd}a"),
        InputAction::Reply(_) => panic!("a non-null input must reach the upstream query"),
    }
}

#[test]
fn empty_input_decodes_empty() {
    match handle_input(Some(Vec::new())) {
        InputAction::Query(prompt) => assert_eq!(prompt, ""),
        InputAction::Reply(_) => panic!("a non-null input must reach the upstream query"),
    }
}

#[test]
fn first_choice_is_the_response() {
    let outcome = CompletionOutcome::Choices(vec![
        String::from("This is a test."),
        String::from("a later candidate"),
    ]);
    assert_eq!(handle_outcome(&outcome), "This is a test.");
}

#[test]
fn empty_choice_list_is_reported() {
    let outcome = CompletionOutcome::Choices(Vec::new());
    assert_eq!(handle_outcome(&outcome), "Error: No response received");
}

#[test]
fn failure_display_is_prefixed() {
    let outcome = CompletionOutcome::Failed(String::from("connection refused"));
    assert_eq!(handle_outcome(&outcome), "Error: connection refused");
}

#[test]
fn error_responses_are_not_empty() {
    let failed = handle_outcome(&CompletionOutcome::Failed(String::new()));
    assert!(!failed.is_empty(), "Empty response received");
    let empty = handle_outcome(&CompletionOutcome::Choices(Vec::new()));
    assert!(!empty.is_empty(), "Empty response received");
}

#[test]
fn nul_free_text_can_encode() {
    assert!(can_encode("Hello, world!"));
    assert!(can_encode(""));
    assert!(can_encode("Error: WTF - this is a null pointer"));
}

#[test]
fn embedded_nul_cannot_encode() {
    assert!(!can_encode("Hello\0world"));
    assert!(!can_encode("\0"));
}
