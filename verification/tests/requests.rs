use async_openai::types::{
    ChatCompletionRequestMessage, ChatCompletionRequestUserMessageContent,
    Role as ProviderRole,
};
use coding_assistant::request::{
    build_request_messages, COMPLETION_TOKENS, GPT_3_MODEL, GPT_4_MODEL,
};
use coding_assistant::{
    build_request, build_request_message, select_model, ChatMessageBuildError, History, Message,
    MyError, Role,
};

fn plain(message: &ChatCompletionRequestMessage) -> (ProviderRole, String) {
    match message {
        ChatCompletionRequestMessage::System(m) => (m.role, m.content.clone().unwrap()),
        ChatCompletionRequestMessage::Assistant(m) => (m.role, m.content.clone().unwrap()),
        ChatCompletionRequestMessage::User(m) => match m.content.clone().unwrap() {
            ChatCompletionRequestUserMessageContent::Text(text) => (m.role, text),
            other => panic!("not plain text: {:?}", other),
        },
        other => panic!("unexpected message: {:?}", other),
    }
}

#[test]
fn model_follows_the_cost_tier() {
    assert_eq!(select_model(true), "gpt-3.5-turbo-1106");
    assert_eq!(select_model(false), "gpt-4-1106-preview");
    assert_eq!(select_model(true), GPT_3_MODEL);
    assert_eq!(select_model(false), GPT_4_MODEL);
}

#[test]
fn system_message_is_built_as_a_system_message() {
    let built = build_request_message(&Role::SYSTEM, "be brief").unwrap();
    assert!(matches!(built, ChatCompletionRequestMessage::System(_)));
    assert_eq!(plain(&built), (ProviderRole::System, "be brief".to_string()));
}

#[test]
fn user_message_is_built_as_a_user_message() {
    let built = build_request_message(&Role::USER, "hello").unwrap();
    assert!(matches!(built, ChatCompletionRequestMessage::User(_)));
    assert_eq!(plain(&built), (ProviderRole::User, "hello".to_string()));
}

#[test]
fn assistant_message_is_built_as_an_assistant_message() {
    let built = build_request_message(&Role::ASSISTANT, "").unwrap();
    assert!(matches!(built, ChatCompletionRequestMessage::Assistant(_)));
    assert_eq!(plain(&built), (ProviderRole::Assistant, String::new()));
}

#[test]
fn messages_keep_their_order_and_roles() {
    let messages = vec![
        Message::new(Role::SYSTEM, "s"),
        Message::new(Role::USER, "u1"),
        Message::new(Role::ASSISTANT, "a1"),
        Message::new(Role::USER, "u2"),
    ];
    let built = build_request_messages(&messages).unwrap();
    let shape: Vec<(ProviderRole, String)> = built.iter().map(plain).collect();
    assert_eq!(
        shape,
        vec![
            (ProviderRole::System, "s".to_string()),
            (ProviderRole::User, "u1".to_string()),
            (ProviderRole::Assistant, "a1".to_string()),
            (ProviderRole::User, "u2".to_string()),
        ]
    );
}

#[test]
fn request_carries_model_budget_and_messages() {
    let mut history = History::new("prompt");
    history.push(Message::new(Role::USER, "question"));
    let request = build_request(&history, true).unwrap();
    assert_eq!(request.model, "gpt-3.5-turbo-1106");
    assert_eq!(request.max_tokens, Some(1024));
    assert_eq!(request.max_tokens, Some(COMPLETION_TOKENS));
    let shape: Vec<(ProviderRole, String)> = request.messages.iter().map(plain).collect();
    assert_eq!(
        shape,
        vec![
            (ProviderRole::System, "prompt".to_string()),
            (ProviderRole::User, "question".to_string()),
        ]
    );
    let standard = build_request(&history, false).unwrap();
    assert_eq!(standard.model, "gpt-4-1106-preview");
}

#[test]
fn request_for_an_empty_conversation_has_no_messages() {
    let history = History::from_parts(uuid::Uuid::nil(), Vec::new());
    let request = build_request(&history, false).unwrap();
    assert!(request.messages.is_empty());
}

#[test]
fn build_errors_name_the_role() {
    assert_eq!(
        ChatMessageBuildError::for_role(Role::SYSTEM).to_string(),
        "Failed to build chat completion system message"
    );
    assert_eq!(
        ChatMessageBuildError::for_role(Role::USER).to_string(),
        "Failed to build chat completion user message"
    );
    assert_eq!(
        ChatMessageBuildError::for_role(Role::ASSISTANT).to_string(),
        "Failed to build chat completion assistant message"
    );
    assert_eq!(ChatMessageBuildError::from("why").to_string(), "why");
    assert_eq!(ChatMessageBuildError::new("because").to_string(), "because");
}

#[test]
fn error_keeps_its_text() {
    let error = MyError::new("disk full");
    assert_eq!(error.message(), "disk full");
    assert_eq!(error.to_string(), "disk full");
}
