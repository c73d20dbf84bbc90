//! Single-shot generation of text from a conversation.

use crate::client::{request_for, Call, Client, Method};
use crate::error::{GemsError, GemsErrorView};
use crate::messages::{message_parts, to_parts, Message};
use crate::models::Model;
use crate::requests::{
    optional_content_view, Content, GeminiRequest, GeminiRequestView, Part, PartView,
};
use crate::responses::GeminiResponse;
use crate::traits::CTrait;
use vstd::prelude::*;

verus! {

/// The parameters of a chat: the model, the messages so far, and the
/// messages of the system, if any.
#[derive(Debug, Clone)]
pub struct Chat {
    pub model: Model,
    pub messages: Vec<Message>,
    pub system: Option<Vec<Message>>,
}

impl Default for Chat {
    fn default() -> (chat: Self)
        ensures
            chat.model == Model::Flash20,
            chat.messages@.len() == 0,
            chat.system is None,
    {
        Chat { model: Model::default(), messages: Vec::new(), system: None }
    }
}

/// The chat service of a client.
pub struct Chats {
    pub client: Client,
}

/// The parts of the instruction that the messages of a system give, where
/// there are any.
pub open spec fn system_parts(system: Option<Vec<Message>>) -> Option<Seq<PartView>> {
    match system {
        Some(messages) => Some(message_parts(messages@)),
        None => None,
    }
}

/// The instruction that the messages of a system give, where there are any.
pub fn system_instruction(system: &Option<Vec<Message>>) -> (instruction: Option<Content>)
    ensures
        optional_content_view(instruction) == system_parts(*system),
{
    match system {
        Some(messages) => Some(Content { parts: to_parts(messages) }),
        None => None,
    }
}

/// The body of the request for a chat.
pub open spec fn chat_body(params: Chat) -> GeminiRequestView {
    GeminiRequestView {
        model: params.model.name(),
        contents: seq![message_parts(params.messages@)],
        system_instruction: system_parts(params.system),
        config: None,
    }
}

/// The text that an answer gives: that of the first part of its first
/// candidate.
pub open spec fn answer_text(response: GeminiResponse) -> Result<Seq<char>, GemsErrorView> {
    match response.candidates {
        None => Err(GemsErrorView::MissingCandidates),
        Some(candidates) => if candidates@.len() == 0 {
            Err(GemsErrorView::NoCandidate)
        } else if candidates@[0].content.parts@.len() == 0 {
            Err(GemsErrorView::ExpectedText)
        } else {
            match candidates@[0].content.parts@[0] {
                Part::Text { text } => Ok(text@),
                _ => Err(GemsErrorView::ExpectedText),
            }
        },
    }
}

/// The view of a text or the error in its place.
pub open spec fn text_result_view(text: Result<String, GemsError>) -> Result<
    Seq<char>,
    GemsErrorView,
> {
    match text {
        Ok(value) => Ok(value@),
        Err(error) => Err(error@),
    }
}

/// The text that an answer gives: that of the first part of its first
/// candidate.
pub fn first_text(response: &GeminiResponse) -> (text: Result<String, GemsError>)
    ensures
        text_result_view(text) == answer_text(*response),
{
    match &response.candidates {
        None => Err(GemsError::MissingCandidates),
        Some(candidates) => {
            if candidates.len() == 0 {
                return Err(GemsError::NoCandidate);
            }
            let parts = &candidates[0].content.parts;
            if parts.len() == 0 {
                return Err(GemsError::ExpectedText);
            }
            match &parts[0] {
                Part::Text { text } => Ok(text.clone()),
                _ => Err(GemsError::ExpectedText),
            }
        },
    }
}

impl Chats {
    /// The body of the request for a chat: the model by its name, one
    /// content that holds a text part for each message, and the instruction
    /// of the system.
    pub fn generate_body(params: &Chat) -> (body: GeminiRequest)
        ensures
            body@ == chat_body(*params),
    {
        let content = Content { parts: to_parts(&params.messages) };
        let body = GeminiRequest {
            model: params.model.to_string(),
            contents: vec![content],
            system_instruction: system_instruction(&params.system),
            config: None,
        };
        assert(body@.contents =~= seq![message_parts(params.messages@)]);
        body
    }

    /// What to send for a chat: the request for the endpoint that generates
    /// content, and its body. Without an API key there is nothing to send.
    pub fn generate(&self, params: Chat) -> (call: Result<Call<GeminiRequest>, GemsError>)
        ensures
            match request_for(self.client@, Method::Post, "generateContent"@) {
                Ok(planned) => call matches Ok(made) && made.request@ == planned && made.body@
                    == chat_body(params),
                Err(error) => call matches Err(refused) && refused@ == error,
            },
    {
        let body = Chats::generate_body(&params);
        match self.client.request(Method::Post, "generateContent") {
            Ok(request) => Ok(Call { request, body }),
            Err(error) => Err(error),
        }
    }

    /// The text that the answer to a chat gives.
    pub fn generate_result(response: &GeminiResponse) -> (text: Result<String, GemsError>)
        ensures
            text_result_view(text) == answer_text(*response),
    {
        first_text(response)
    }
}

/// A builder of the parameters of a chat.
#[derive(Debug, Clone)]
pub struct ChatBuilder {
    pub model: Option<Model>,
    pub messages: Option<Vec<Message>>,
    pub system: Option<Vec<Message>>,
}

impl Default for ChatBuilder {
    fn default() -> (builder: Self)
        ensures
            builder.model is None,
            builder.messages is None,
            builder.system is None,
    {
        ChatBuilder { model: None, messages: None, system: None }
    }
}

impl ChatBuilder {
    /// Sets the model.
    pub fn model(self, model: Model) -> (builder: Self)
        ensures
            builder == (ChatBuilder { model: Some(model), ..self }),
    {
        ChatBuilder { model: Some(model), messages: self.messages, system: self.system }
    }

    /// Sets the messages.
    pub fn messages(self, messages: Vec<Message>) -> (builder: Self)
        ensures
            builder == (ChatBuilder { messages: Some(messages), ..self }),
    {
        ChatBuilder { model: self.model, messages: Some(messages), system: self.system }
    }

    /// Sets the messages of the system.
    pub fn system(self, system: Vec<Message>) -> (builder: Self)
        ensures
            builder == (ChatBuilder { system: Some(system), ..self }),
    {
        ChatBuilder { model: self.model, messages: self.messages, system: Some(system) }
    }

    /// The parameters: each field as it was set, or its default. Building
    /// never fails.
    pub fn build(self) -> (built: Result<Chat, GemsError>)
        ensures
            built matches Ok(value) && {
                &&& value.model == match self.model {
                    Some(model) => model,
                    None => Model::Flash20,
                }
                &&& match self.messages {
                    Some(messages) => value.messages == messages,
                    None => value.messages@.len() == 0,
                }
                &&& value.system == self.system
            },
    {
        let model = match self.model {
            Some(model) => model,
            None => Model::default(),
        };
        let messages = match self.messages {
            Some(messages) => messages,
            None => Vec::new(),
        };
        let system = self.system;
        Ok(Chat { model, messages, system })
    }
}

} // verus!
