use llama_engine::chat::{build_chat_prompt, Message};
use llama_engine::output::{MatmulOutput, StoryOutput};
use llama_engine::operators::{causal_window_len, matmul_transb_dims, rms_norm_dims};
use llama_engine::EngineError;

#[test]
fn message_format_is_verbatim() {
    let m = Message { role: "user".to_string(), content: "hello".to_string() };
    assert_eq!(m.format(), "<|im_start|>userhello<|im_end|>");
}

#[test]
fn chat_prompt_concatenates_and_opens_assistant() {
    let msgs = vec![
        Message { role: "system".to_string(), content: "be brief".to_string() },
        Message { role: "user".to_string(), content: "hi".to_string() },
    ];
    let p = build_chat_prompt(&msgs);
    assert_eq!(
        p,
        "<|im_start|>systembe brief<|im_end|><|im_start|>userhi<|im_end|><|im_start|>assistant"
    );
}

#[test]
fn chat_prompt_of_no_messages() {
    let p = build_chat_prompt(&vec![]);
    assert_eq!(p, "<|im_start|>assistant");
}

#[test]
fn story_output_buffer() {
    let mut o = StoryOutput::new();
    assert_eq!(o.get_output(), "");
    o.set_output("Once upon a time".to_string());
    assert_eq!(o.get_output(), "Once upon a time");
}

#[test]
fn matmul_output_buffer() {
    let mut o = MatmulOutput::new();
    assert_eq!(o.get_output(), "");
    o.set_output("matmul_transb took: 1ms".to_string());
    assert_eq!(o.get_output(), "matmul_transb took: 1ms");
}

#[test]
fn matmul_dims_accept_transposed_b() {
    let r = matmul_transb_dims(&vec![4, 3], &vec![4, 5], &vec![3, 5]).unwrap();
    assert_eq!(r, (4, 5, 3));
}

#[test]
fn matmul_dims_reject_mismatch() {
    assert!(matches!(
        matmul_transb_dims(&vec![4, 3], &vec![4, 5], &vec![3, 6]),
        Err(EngineError::ShapeError)
    ));
    assert!(matches!(
        matmul_transb_dims(&vec![4, 3, 1], &vec![4, 5], &vec![3, 5]),
        Err(EngineError::ShapeError)
    ));
    assert!(matches!(
        matmul_transb_dims(&vec![4, 4], &vec![4, 5], &vec![3, 5]),
        Err(EngineError::ShapeError)
    ));
}

#[test]
fn rms_norm_dims_check_weight_width() {
    assert_eq!(rms_norm_dims(&vec![2, 3], &vec![3]).unwrap(), (2, 3));
    assert!(matches!(
        rms_norm_dims(&vec![2, 3], &vec![2]),
        Err(EngineError::ShapeError)
    ));
}

#[test]
fn causal_window_covers_past_only() {
    assert_eq!(causal_window_len(0), 1);
    assert_eq!(causal_window_len(4), 5);
}
