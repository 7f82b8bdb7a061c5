//! The request that asks a chat model for a commit message, and the message taken from its reply.

use vstd::prelude::*;
use super::config::Config;

verus! {

/// The instruction that comes before the diff.
pub const SYSTEM_MESSAGE: &'static str = "You are a commit message generator. I will provide you with a git diff, and I would like you to generate an appropriate commit message using the conventional commit format. Do not write any explanations or other words, just reply with the commit message.";

/// Who a message of the conversation comes from.
#[derive(Clone, Copy, Debug, PartialEq, Eq)]
pub enum MessageRole {
    System,
    User,
}

/// One message of the conversation sent to the model.
pub struct ChatMessage {
    pub role: MessageRole,
    pub content: String,
}

/// Everything a chat-completion call for a commit message is made of.
pub struct CommitRequest {
    pub endpoint: String,
    pub api_key: String,
    pub model: String,
    pub messages: Vec<ChatMessage>,
}

/// The request for `content` (the filled template): the model and endpoint of the settings, then
/// the instruction as a system message followed by `content` as the user's message.
pub fn commit_request(content: String, config: Config) -> (req: CommitRequest)
    ensures
        req.endpoint@ == config.openai_api_url@,
        req.api_key@ == config.openai_api_key@,
        req.model@ == config.model_name@,
        req.messages@.len() == 2,
        req.messages@[0].role == MessageRole::System,
        req.messages@[0].content@ == SYSTEM_MESSAGE@,
        req.messages@[1].role == MessageRole::User,
        req.messages@[1].content@ == content@,
{
    let mut messages: Vec<ChatMessage> = Vec::new();
    messages.push(ChatMessage { role: MessageRole::System, content: SYSTEM_MESSAGE.to_owned() });
    messages.push(ChatMessage { role: MessageRole::User, content });
    CommitRequest {
        endpoint: config.openai_api_url,
        api_key: config.openai_api_key,
        model: config.model_name,
        messages,
    }
}

/// The commit message in a reply, given the contents of the reply's choices: the first choice's
/// content, or the empty text when it has none.
pub fn commit_message(choices: &Vec<Option<String>>) -> (msg: String)
    requires
        choices@.len() > 0,
    ensures
        msg@ == match choices@[0] {
            Some(c) => c@,
            None => Seq::<char>::empty(),
        },
{
    match &choices[0] {
        Some(c) => c.clone(),
        None => String::new(),
    }
}

} // verus!
