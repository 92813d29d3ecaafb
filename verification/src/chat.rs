//! The messages handed to a chat-completion provider.

use vstd::prelude::*;
use vstd::string::*;
use crate::prompt::{
    completion_system_text, generate_code_hint_user_prompt, generate_system_prompt,
    generate_user_prompt, hint_prompt_text, user_prompt_text,
};
use crate::request::{HintRequestBody, RequestBody};

verus! {

/// Who speaks in a message.
#[derive(Clone, Copy, Debug, PartialEq, Eq, Structural)]
pub enum ChatRole {
    System,
    User,
}

/// The service a call goes to.
#[derive(Clone, Copy, Debug, PartialEq, Eq, Structural)]
pub enum Provider {
    OpenAi,
    Anthropic,
}

/// One message of a conversation.
#[derive(Clone, Debug, PartialEq, Eq)]
pub struct ChatMessage {
    pub role: ChatRole,
    pub content: String,
}

/// A message as a value of the model: its role and its text.
pub struct ChatMessageView {
    pub role: ChatRole,
    pub content: Seq<char>,
}

impl View for ChatMessage {
    type V = ChatMessageView;

    open spec fn view(&self) -> ChatMessageView {
        ChatMessageView { role: self.role, content: self.content@ }
    }
}

/// Everything the provider client needs for one call.
#[derive(Clone, Debug, PartialEq, Eq)]
pub struct ProviderCall {
    pub provider: Provider,
    pub model: String,
    /// Instructions sent beside the conversation, where the provider takes
    /// them apart from it.
    pub system: Option<String>,
    pub messages: Vec<ChatMessage>,
}

/// A call as a value of the model.
pub struct ProviderCallView {
    pub provider: Provider,
    pub model: Seq<char>,
    pub system: Option<Seq<char>>,
    pub messages: Seq<ChatMessageView>,
}

impl View for ProviderCall {
    type V = ProviderCallView;

    open spec fn view(&self) -> ProviderCallView {
        ProviderCallView {
            provider: self.provider,
            model: self.model@,
            system: match self.system {
                Some(text) => Some(text@),
                None => None,
            },
            messages: Seq::new(self.messages@.len(), |i: int| self.messages@[i]@),
        }
    }
}

/// The instructions given to the tutor.
pub open spec fn tutor_system_text() -> Seq<char> {
    "You are an experienced and patient coding tutor. Your task is to help a student with their coding question and provide guidance on their code. You will analyze the code they've written, offer hints to help them solve the problem, and check for any errors. Remember to be encouraging and supportive throughout the process.\n\nPlease follow these steps to assist the student:\n\n1. Carefully read and understand both the coding question and the student's code.\n\n2. Analyze the code:\n   - Identify what parts of the problem the student has successfully addressed.\n   - Determine where the student might be stuck or what concepts they might be struggling with.\n   - Look for any logical errors or misunderstandings in their approach.\n\n3. Provide hints:\n   - If the student is stuck, offer a hint that guides them towards the next step without giving away the full solution.\n   - If they're on the right track but missing something, provide a gentle nudge in the right direction.\n   - If they've misunderstood a concept, explain it briefly and provide a small example if necessary.\n\n4. Check for errors:\n   - Identify any syntax errors in the code.\n   - Look for logical errors or edge cases the student might have missed.\n   - If the code is complete, test it mentally with different inputs to ensure it works as expected.\n\n5. Format your response as follows:\n\n   <hints>\n   Offer 1-3 hints to guide the student, depending on how much help they need.\n   </hints>\n\n   <errors>\n   List any syntax or logical errors you've identified. If there are no errors, state that the code looks good so far.\n   </errors>\n\nRemember to maintain a supportive and patient tone throughout your response. Your goal is to guide the student towards solving the problem on their own, not to solve it for them.\n\nIf the student has provided a complete solution, focus on error checking and optimization suggestions rather than hints for solving the problem.\n\nBegin your analysis now, and provide your response using the format specified above and output shoudl be user friendly and add some infographics."@
}

/// The call a completion request leads to: a system message that names the
/// language, then the user prompt, for the small OpenAI model.
pub open spec fn completion_call_model(
    language: Seq<char>,
    before: Seq<char>,
    after: Seq<char>,
) -> ProviderCallView {
    ProviderCallView {
        provider: Provider::OpenAi,
        model: "gpt-4o-mini"@,
        system: None,
        messages: seq![
            ChatMessageView { role: ChatRole::System, content: completion_system_text(language) },
            ChatMessageView {
                role: ChatRole::User,
                content: user_prompt_text(language, before, after),
            },
        ],
    }
}

/// The call a tutoring request leads to: the tutor's instructions beside a
/// single user message, for the given Anthropic model.
pub open spec fn suggestion_call_model(
    question: Seq<char>,
    code: Seq<char>,
    model: Seq<char>,
) -> ProviderCallView {
    ProviderCallView {
        provider: Provider::Anthropic,
        model: model,
        system: Some(tutor_system_text()),
        messages: seq![
            ChatMessageView { role: ChatRole::User, content: hint_prompt_text(question, code) },
        ],
    }
}

/// The fixed instructions of the tutoring endpoint.
pub fn tutor_system_prompt() -> (prompt: String)
    ensures
        prompt@ == tutor_system_text(),
{
    String::from_str(
        "You are an experienced and patient coding tutor. Your task is to help a student with their coding question and provide guidance on their code. You will analyze the code they've written, offer hints to help them solve the problem, and check for any errors. Remember to be encouraging and supportive throughout the process.\n\nPlease follow these steps to assist the student:\n\n1. Carefully read and understand both the coding question and the student's code.\n\n2. Analyze the code:\n   - Identify what parts of the problem the student has successfully addressed.\n   - Determine where the student might be stuck or what concepts they might be struggling with.\n   - Look for any logical errors or misunderstandings in their approach.\n\n3. Provide hints:\n   - If the student is stuck, offer a hint that guides them towards the next step without giving away the full solution.\n   - If they're on the right track but missing something, provide a gentle nudge in the right direction.\n   - If they've misunderstood a concept, explain it briefly and provide a small example if necessary.\n\n4. Check for errors:\n   - Identify any syntax errors in the code.\n   - Look for logical errors or edge cases the student might have missed.\n   - If the code is complete, test it mentally with different inputs to ensure it works as expected.\n\n5. Format your response as follows:\n\n   <hints>\n   Offer 1-3 hints to guide the student, depending on how much help they need.\n   </hints>\n\n   <errors>\n   List any syntax or logical errors you've identified. If there are no errors, state that the code looks good so far.\n   </errors>\n\nRemember to maintain a supportive and patient tone throughout your response. Your goal is to guide the student towards solving the problem on their own, not to solve it for them.\n\nIf the student has provided a complete solution, focus on error checking and optimization suggestions rather than hints for solving the problem.\n\nBegin your analysis now, and provide your response using the format specified above and output shoudl be user friendly and add some infographics.",
    )
}

/// Plans the provider call for a completion request. The caret position and
/// the completion mode do not change it.
pub fn completion_call(body: RequestBody) -> (call: ProviderCall)
    ensures
        call@ == completion_call_model(
            body.completion_metadata.language@,
            body.completion_metadata.text_before_cursor@,
            body.completion_metadata.text_after_cursor@,
        ),
{
    let system_prompt = generate_system_prompt(body.completion_metadata.language.as_str());
    let user_prompt = generate_user_prompt(body.completion_metadata);
    let mut messages: Vec<ChatMessage> = Vec::new();
    messages.push(ChatMessage { role: ChatRole::System, content: system_prompt });
    messages.push(ChatMessage { role: ChatRole::User, content: user_prompt });
    let call = ProviderCall {
        provider: Provider::OpenAi,
        model: String::from_str("gpt-4o-mini"),
        system: None,
        messages,
    };
    proof {
        assert(call@.messages =~= completion_call_model(
            body.completion_metadata.language@,
            body.completion_metadata.text_before_cursor@,
            body.completion_metadata.text_after_cursor@,
        ).messages);
    }
    call
}

/// Plans the provider call for a tutoring request, for the model that the
/// service is set up with. The request's language does not change it.
pub fn suggestion_call(body: HintRequestBody, model: &str) -> (call: ProviderCall)
    ensures
        call@ == suggestion_call_model(body.question@, body.code@, model@),
{
    let system_prompt = tutor_system_prompt();
    let user_prompt = generate_code_hint_user_prompt(body);
    let mut messages: Vec<ChatMessage> = Vec::new();
    messages.push(ChatMessage { role: ChatRole::User, content: user_prompt });
    let call = ProviderCall {
        provider: Provider::Anthropic,
        model: String::from_str(model),
        system: Some(system_prompt),
        messages,
    };
    proof {
        assert(call@.messages =~= suggestion_call_model(
            body.question@,
            body.code@,
            model@,
        ).messages);
    }
    call
}

} // verus!
