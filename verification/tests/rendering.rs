use chat_template::message::records;
use chat_template::{
    apply_template, ApplyChatMLTemplateError, ApplyMistralInstructTemplateError,
    ApplyTemplateError, ChatTemplate, Message,
};

fn message(role: &str, content: &str) -> Message {
    Message { role: role.to_string(), content: content.to_string() }
}

#[test]
fn chatml_of_no_messages_is_empty_without_the_flag() {
    let prompt = apply_template(ChatTemplate::ChatML, &vec![], false).unwrap();
    assert_eq!(prompt, "");
}

#[test]
fn chatml_of_no_messages_is_the_assistant_opening_with_the_flag() {
    let prompt = apply_template(ChatTemplate::ChatML, &vec![], true).unwrap();
    assert_eq!(prompt, "<|im_start|>assistant\n");
}

#[test]
fn chatml_system_then_user_with_the_flag() {
    let messages = vec![message("system", "S"), message("user", "Hello, who are you?")];
    let prompt = apply_template(ChatTemplate::ChatML, &messages, true).unwrap();
    assert_eq!(
        prompt,
        "<|im_start|>system\nS<|im_end|>\n<|im_start|>user\nHello, who are you?<|im_end|>\n<|im_start|>assistant\n"
    );
}

#[test]
fn chatml_writes_any_role_as_it_is() {
    let messages = vec![message("Tool ", "42")];
    let prompt = apply_template(ChatTemplate::ChatML, &messages, false).unwrap();
    assert_eq!(prompt, "<|im_start|>Tool \n42<|im_end|>\n");
}

#[test]
fn chatml_keeps_newlines_and_markup_in_content() {
    let messages = vec![message("user", "line one\nline two\n"), message("user", "<b>&\"'</b> {{ x }} {% if %}")];
    let prompt = apply_template(ChatTemplate::ChatML, &messages, false).unwrap();
    assert_eq!(
        prompt,
        "<|im_start|>user\nline one\nline two\n<|im_end|>\n<|im_start|>user\n<b>&\"'</b> {{ x }} {% if %}<|im_end|>\n"
    );
}

#[test]
fn chatml_of_empty_role_and_content() {
    let messages = vec![message("", "")];
    let prompt = apply_template(ChatTemplate::ChatML, &messages, true).unwrap();
    assert_eq!(prompt, "<|im_start|>\n<|im_end|>\n<|im_start|>assistant\n");
}

#[test]
fn rendering_twice_gives_the_same_text() {
    let messages = vec![
        message("system", "你是一個來自台灣的AI助理"),
        message("user", "Q1"),
        message("assistant", "A1"),
        message("user", "Q2"),
    ];
    for flag in [false, true] {
        let first = apply_template(ChatTemplate::ChatML, &messages, flag).unwrap();
        let second = apply_template(ChatTemplate::ChatML, &messages, flag).unwrap();
        assert_eq!(first, second);
        let first = apply_template(ChatTemplate::MistralInstruct, &messages, flag).unwrap();
        let second = apply_template(ChatTemplate::MistralInstruct, &messages, flag).unwrap();
        assert_eq!(first, second);
        let first = apply_template(ChatTemplate::TAIDE, &messages, flag).unwrap();
        let second = apply_template(ChatTemplate::TAIDE, &messages, flag).unwrap();
        assert_eq!(first, second);
    }
}

#[test]
fn mistral_of_no_messages_is_the_opening_token() {
    assert_eq!(apply_template(ChatTemplate::MistralInstruct, &vec![], false).unwrap(), "<s>");
    assert_eq!(apply_template(ChatTemplate::MistralInstruct, &vec![], true).unwrap(), "<s>");
}

#[test]
fn mistral_takes_no_notice_of_the_flag() {
    let messages = vec![message("user", "Q1"), message("assistant", "A1"), message("user", "Q2")];
    let with = apply_template(ChatTemplate::MistralInstruct, &messages, true).unwrap();
    let without = apply_template(ChatTemplate::MistralInstruct, &messages, false).unwrap();
    assert_eq!(with, "<s>[INST] Q1 [/INST]A1</s>[INST] Q2 [/INST]");
    assert_eq!(without, with);
}

#[test]
fn mistral_ends_on_the_end_token_after_an_assistant_turn() {
    let messages = vec![message("user", "Q1"), message("assistant", "A1")];
    let prompt = apply_template(ChatTemplate::MistralInstruct, &messages, true).unwrap();
    assert_eq!(prompt, "<s>[INST] Q1 [/INST]A1</s>");
}

#[test]
fn mistral_leaves_out_other_roles() {
    let messages = vec![
        message("system", "S"),
        message("user", "Q1"),
        message("tool", "T"),
        message("assistant", "A1"),
        message("", "E"),
    ];
    let prompt = apply_template(ChatTemplate::MistralInstruct, &messages, false).unwrap();
    assert_eq!(prompt, "<s>[INST] Q1 [/INST]A1</s>");
    let kept = vec![message("user", "Q1"), message("assistant", "A1")];
    assert_eq!(prompt, apply_template(ChatTemplate::MistralInstruct, &kept, false).unwrap());
}

#[test]
fn mistral_compares_roles_exactly() {
    let messages = vec![
        message("User", "a"),
        message(" user", "b"),
        message("user ", "c"),
        message("ASSISTANT", "d"),
        message("user", "e"),
    ];
    let prompt = apply_template(ChatTemplate::MistralInstruct, &messages, false).unwrap();
    assert_eq!(prompt, "<s>[INST] e [/INST]");
}

#[test]
fn taide_takes_no_notice_of_the_flag() {
    let messages = vec![message("system", "Sys"), message("user", "Q1")];
    let with = apply_template(ChatTemplate::TAIDE, &messages, true).unwrap();
    let without = apply_template(ChatTemplate::TAIDE, &messages, false).unwrap();
    assert_eq!(with, "<s>[INST] <<SYS>>\nSys\n<</SYS>>\n\nQ1 [/INST]");
    assert_eq!(without, with);
}

#[test]
fn taide_puts_the_header_on_the_first_turn_only() {
    let messages = vec![
        message("system", "Sys"),
        message("user", "Q1"),
        message("assistant", "A1"),
        message("user", "Q2"),
        message("assistant", "A2"),
        message("user", "Q3"),
    ];
    let prompt = apply_template(ChatTemplate::TAIDE, &messages, false).unwrap();
    assert_eq!(
        prompt,
        "<s>[INST] <<SYS>>\nSys\n<</SYS>>\n\nQ1 [/INST] A1 </s><s>[INST] Q2 [/INST] A2 </s><s>[INST] Q3 [/INST]"
    );
    assert_eq!(prompt.matches("<<SYS>>").count(), 1);
    assert_eq!(prompt.matches("<</SYS>>").count(), 1);
}

#[test]
fn taide_puts_the_header_on_an_assistant_turn_that_comes_first() {
    let messages = vec![message("system", "Sys"), message("assistant", "A1"), message("user", "Q1")];
    let prompt = apply_template(ChatTemplate::TAIDE, &messages, false).unwrap();
    assert_eq!(prompt, " <<SYS>>\nSys\n<</SYS>>\n\nA1 </s><s>[INST] Q1 [/INST]");
}

#[test]
fn taide_without_a_leading_system_message_has_no_header() {
    let messages = vec![message("user", "Q1"), message("assistant", "A1"), message("user", "Q2")];
    let prompt = apply_template(ChatTemplate::TAIDE, &messages, false).unwrap();
    assert_eq!(prompt, "<s>[INST] Q1 [/INST] A1 </s><s>[INST] Q2 [/INST]");
}

#[test]
fn taide_leaves_out_a_system_message_that_is_not_first() {
    let messages = vec![message("user", "Q1"), message("system", "Sys"), message("user", "Q2")];
    let prompt = apply_template(ChatTemplate::TAIDE, &messages, false).unwrap();
    assert_eq!(prompt, "<s>[INST] Q1 [/INST]<s>[INST] Q2 [/INST]");
}

#[test]
fn taide_loses_the_header_when_the_next_message_is_left_out() {
    let messages = vec![message("system", "Sys"), message("tool", "T"), message("user", "Q1")];
    let prompt = apply_template(ChatTemplate::TAIDE, &messages, false).unwrap();
    assert_eq!(prompt, "<s>[INST] Q1 [/INST]");
}

#[test]
fn taide_of_a_lone_system_message_is_empty() {
    let messages = vec![message("system", "Sys")];
    let prompt = apply_template(ChatTemplate::TAIDE, &messages, true).unwrap();
    assert_eq!(prompt, "");
}

#[test]
fn taide_of_no_messages_is_empty() {
    assert_eq!(apply_template(ChatTemplate::TAIDE, &vec![], false).unwrap(), "");
    assert_eq!(apply_template(ChatTemplate::TAIDE, &vec![], true).unwrap(), "");
}

#[test]
fn failures_keep_the_error_of_the_engine() {
    let inner = minijinja::Error::new(minijinja::ErrorKind::SyntaxError, "unexpected end of input");
    match ApplyChatMLTemplateError::AddTemplateError(inner) {
        ApplyChatMLTemplateError::AddTemplateError(e) => {
            assert_eq!(e.kind(), minijinja::ErrorKind::SyntaxError)
        }
        other => panic!("unexpected {:?}", other),
    }
    let inner = minijinja::Error::new(minijinja::ErrorKind::TemplateNotFound, "missing");
    let outer = ApplyTemplateError::ApplyMistralInstructTemplateError(
        ApplyMistralInstructTemplateError::GetTemplateError(inner),
    );
    match outer {
        ApplyTemplateError::ApplyMistralInstructTemplateError(
            ApplyMistralInstructTemplateError::GetTemplateError(e),
        ) => assert_eq!(e.kind(), minijinja::ErrorKind::TemplateNotFound),
        other => panic!("unexpected {:?}", other),
    }
}

#[test]
fn a_message_becomes_a_record_of_role_then_content() {
    let m = message("user", "你好嗎？");
    assert_eq!(m.record(), vec![("role", "user"), ("content", "你好嗎？")]);
}

#[test]
fn a_conversation_becomes_its_records_in_turn_order() {
    let messages = vec![message("system", "S"), message("user", "Q"), message("user", "Q")];
    assert_eq!(
        records(&messages),
        vec![
            vec![("role", "system"), ("content", "S")],
            vec![("role", "user"), ("content", "Q")],
            vec![("role", "user"), ("content", "Q")],
        ]
    );
    assert!(records(&vec![]).is_empty());
}

#[test]
fn taide_loses_the_header_on_a_second_system_message() {
    let messages = vec![message("system", "S1"), message("system", "S2"), message("user", "Q1")];
    let prompt = apply_template(ChatTemplate::TAIDE, &messages, false).unwrap();
    assert_eq!(prompt, "<s>[INST] Q1 [/INST]");
}

#[test]
fn taide_of_a_lone_user_message_with_empty_content() {
    let messages = vec![message("user", "")];
    let prompt = apply_template(ChatTemplate::TAIDE, &messages, false).unwrap();
    assert_eq!(prompt, "<s>[INST]  [/INST]");
}

#[test]
fn digits_are_joined_as_text() {
    let messages = vec![message("user", "1"), message("assistant", "2")];
    assert_eq!(
        apply_template(ChatTemplate::ChatML, &messages, false).unwrap(),
        "<|im_start|>user\n1<|im_end|>\n<|im_start|>assistant\n2<|im_end|>\n"
    );
    assert_eq!(
        apply_template(ChatTemplate::MistralInstruct, &messages, false).unwrap(),
        "<s>[INST] 1 [/INST]2</s>"
    );
    assert_eq!(
        apply_template(ChatTemplate::TAIDE, &messages, false).unwrap(),
        "<s>[INST] 1 [/INST] 2 </s>"
    );
    let messages = vec![message("1", "2")];
    assert_eq!(
        apply_template(ChatTemplate::ChatML, &messages, false).unwrap(),
        "<|im_start|>1\n2<|im_end|>\n"
    );
}

#[test]
fn bracket_layouts_keep_markup_in_content() {
    let messages = vec![message("system", "<a>&"), message("user", "{{ x }}\n<</SYS>>")];
    assert_eq!(
        apply_template(ChatTemplate::TAIDE, &messages, false).unwrap(),
        "<s>[INST] <<SYS>>\n<a>&\n<</SYS>>\n\n{{ x }}\n<</SYS>> [/INST]"
    );
    assert_eq!(
        apply_template(ChatTemplate::MistralInstruct, &messages, false).unwrap(),
        "<s>[INST] {{ x }}\n<</SYS>> [/INST]"
    );
}
