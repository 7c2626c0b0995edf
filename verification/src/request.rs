//! From a conversation to the provider's completion request.

use crate::error::ChatMessageBuildError;
use crate::history::History;
use crate::message::{Message, MessageView};
use crate::role::Role;
use async_openai::error::OpenAIError;
use async_openai::types::{
    ChatCompletionRequestAssistantMessageArgs, ChatCompletionRequestMessage,
    ChatCompletionRequestSystemMessageArgs, ChatCompletionRequestUserMessageArgs,
    CreateChatCompletionRequest, CreateChatCompletionRequestArgs,
};
use vstd::prelude::*;

verus! {

/// The most tokens that the provider may answer with.
pub const COMPLETION_TOKENS: u16 = 1024;

/// The standard model.
pub const GPT_4_MODEL: &'static str = "gpt-4-1106-preview";

/// The economy model.
pub const GPT_3_MODEL: &'static str = "gpt-3.5-turbo-1106";

/// `async_openai::types::ChatCompletionRequestMessage`, carried as an opaque
/// value.
#[verifier::external_type_specification]
#[verifier::external_body]
pub struct ExChatCompletionRequestMessage(ChatCompletionRequestMessage);

/// `async_openai::types::CreateChatCompletionRequest`, carried as an opaque
/// value.
#[verifier::external_type_specification]
#[verifier::external_body]
pub struct ExCreateChatCompletionRequest(CreateChatCompletionRequest);

/// `async_openai::error::OpenAIError`, carried as an opaque value.
#[verifier::external_type_specification]
#[verifier::external_body]
pub struct ExOpenAIError(OpenAIError);

/// What a completion request asks for.
pub struct RequestView {
    pub model: Seq<char>,
    pub max_tokens: Option<u16>,
    pub messages: Seq<MessageView>,
}

/// What a request message of the provider holds: for the variants
/// `System`, `User` and `Assistant`, the role of the variant and the text of
/// its `content` field where that is plain text. Of other messages nothing
/// is said.
pub uninterp spec fn message_view(message: ChatCompletionRequestMessage) -> MessageView;

/// What a completion request of the provider holds in its fields `model`,
/// `max_tokens` and `messages`.
pub uninterp spec fn request_view(request: CreateChatCompletionRequest) -> RequestView;

/// The request messages as mathematical values.
pub open spec fn message_views(messages: Seq<ChatCompletionRequestMessage>) -> Seq<MessageView> {
    Seq::new(messages.len(), |i: int| message_view(messages[i]))
}

/// Builds a system message with `ChatCompletionRequestSystemMessageArgs`:
/// `default`, `content`, `build`, then `into` the message enum, which wraps
/// it in the variant `System`. The builder is derived with
/// `#[builder(setter(into, strip_option), default)]` on the struct and has
/// no validator: `content` stores the text, a field that was not set is
/// taken from the struct's default, the role from `Role::System`, so `build`
/// has no field to miss and returns `Ok`.
#[verifier::external_body]
fn system_message(content: &str) -> (built: Result<ChatCompletionRequestMessage, OpenAIError>)
    ensures
        built is Ok,
        message_view(built->Ok_0) == (MessageView { role: Role::SYSTEM, content: content@ }),
{
    Ok(ChatCompletionRequestSystemMessageArgs::default().content(content).build()?.into())
}

/// Builds a user message with `ChatCompletionRequestUserMessageArgs`, which
/// is derived in the same way: the text is stored as content of the variant
/// `Text`, the role is `Role::User`, `build` returns `Ok`, and `into` wraps
/// the message in the variant `User`.
#[verifier::external_body]
fn user_message(content: &str) -> (built: Result<ChatCompletionRequestMessage, OpenAIError>)
    ensures
        built is Ok,
        message_view(built->Ok_0) == (MessageView { role: Role::USER, content: content@ }),
{
    Ok(ChatCompletionRequestUserMessageArgs::default().content(content).build()?.into())
}

/// Builds an assistant message with
/// `ChatCompletionRequestAssistantMessageArgs`, which is derived in the same
/// way: the text is stored, the role is `Role::Assistant`, `build` returns
/// `Ok`, and `into` wraps the message in the variant `Assistant`.
#[verifier::external_body]
fn assistant_message(content: &str) -> (built: Result<ChatCompletionRequestMessage, OpenAIError>)
    ensures
        built is Ok,
        message_view(built->Ok_0) == (MessageView { role: Role::ASSISTANT, content: content@ }),
{
    Ok(ChatCompletionRequestAssistantMessageArgs::default().content(content).build()?.into())
}

/// Builds the request with `CreateChatCompletionRequestArgs`: `default`,
/// `max_tokens`, `model`, `messages`, `build`. The builder is derived as the
/// message builders are: it stores the three values as given, the messages
/// in their order, and `build` returns `Ok`.
#[verifier::external_body]
fn chat_request(
    max_tokens: u16,
    model: &str,
    messages: Vec<ChatCompletionRequestMessage>,
) -> (built: Result<CreateChatCompletionRequest, OpenAIError>)
    ensures
        built is Ok,
        request_view(built->Ok_0) == (RequestView {
            model: model@,
            max_tokens: Some(max_tokens),
            messages: message_views(messages@),
        }),
{
    CreateChatCompletionRequestArgs::default().max_tokens(max_tokens).model(model).messages(
        messages,
    ).build()
}

/// Calls `to_string` on the provider's error, which writes the text of its
/// `Display`.
#[verifier::external_body]
fn error_text(error: &OpenAIError) -> String {
    error.to_string()
}

/// The model that a cost tier selects.
pub open spec fn model_for(low_cost: bool) -> Seq<char> {
    if low_cost {
        GPT_3_MODEL@
    } else {
        GPT_4_MODEL@
    }
}

/// The request that a conversation and a cost tier ask for: one message for
/// each of the conversation's, in its order and with its role and text, the
/// tier's model, and the fixed budget of tokens.
pub open spec fn request_for(messages: Seq<MessageView>, low_cost: bool) -> RequestView {
    RequestView { model: model_for(low_cost), max_tokens: Some(COMPLETION_TOKENS), messages }
}

/// The economy model for the low-cost tier, the standard model otherwise.
pub fn select_model(low_cost: bool) -> (model: &'static str)
    ensures
        model@ == model_for(low_cost),
{
    if low_cost {
        return GPT_3_MODEL;
    }
    GPT_4_MODEL
}

/// The provider's message for one message of the conversation. It has the
/// role and the text that were given. The provider's builders take any
/// text; the error that their signature allows for would be reported with
/// the text kept for the role.
pub fn build_request_message(role: &Role, content: &str) -> (built: Result<
    ChatCompletionRequestMessage,
    ChatMessageBuildError,
>)
    ensures
        built is Ok,
        message_view(built->Ok_0) == (MessageView { role: *role, content: content@ }),
{
    let made = match role {
        Role::SYSTEM => system_message(content),
        Role::USER => user_message(content),
        Role::ASSISTANT => assistant_message(content),
    };
    match made {
        Ok(message) => Ok(message),
        Err(_) => Err(ChatMessageBuildError::for_role(*role)),
    }
}

/// The provider's messages for a list of messages, one for each and in the
/// same order. An error on a message would end the work at that message.
pub fn build_request_messages(messages: &Vec<Message>) -> (built: Result<
    Vec<ChatCompletionRequestMessage>,
    ChatMessageBuildError,
>)
    ensures
        built is Ok,
        message_views(built->Ok_0@) == crate::history::views_of(messages@),
{
    let mut out: Vec<ChatCompletionRequestMessage> = Vec::new();
    let mut i: usize = 0;
    while i < messages.len()
        invariant
            i <= messages.len(),
            out.len() == i,
            forall|j: int| 0 <= j < i ==> message_view(#[trigger] out@[j]) == messages@[j]@,
        decreases messages.len() - i,
    {
        let role = messages[i].role();
        match build_request_message(&role, messages[i].content()) {
            Ok(message) => {
                out.push(message);
            },
            Err(error) => {
                return Err(error);
            },
        }
        i = i + 1;
    }
    assert(message_views(out@) =~= crate::history::views_of(messages@));
    Ok(out)
}

/// The completion request for a conversation: its messages as the
/// provider's, in their order, with the model of the cost tier and the fixed
/// budget of tokens. An error of the provider's builders would be reported
/// by its text.
pub fn build_request(history: &History, low_cost: bool) -> (built: Result<
    CreateChatCompletionRequest,
    String,
>)
    ensures
        built is Ok,
        request_view(built->Ok_0) == request_for(history@, low_cost),
{
    let model = select_model(low_cost);
    let messages = match build_request_messages(history.messages()) {
        Ok(messages) => messages,
        Err(error) => {
            return Err(error.to_string());
        },
    };
    match chat_request(COMPLETION_TOKENS, model, messages) {
        Ok(request) => Ok(request),
        Err(error) => Err(error_text(&error)),
    }
}

} // verus!
