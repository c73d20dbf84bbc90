//! Streamed generation: the request that opens the stream. The body of the
//! answer arrives in chunks, which the stream driver takes.

use crate::chat::{system_instruction, system_parts};
use crate::client::{request_for, Call, Client, Method};
use crate::error::{GemsError, GemsErrorView};
use crate::messages::Message;
use crate::models::Model;
use crate::requests::{Content, GeminiRequest, GeminiRequestView, PartView};
use crate::traits::CTrait;
use vstd::prelude::*;

verus! {

/// The streaming service of a client.
pub struct Streaming {
    pub client: Client,
}

/// The parameters of a streamed generation: the model, the message to
/// answer, and the messages of the system, if any.
#[derive(Debug, Clone)]
pub struct Stream {
    pub model: Model,
    pub input: Message,
    pub system: Option<Vec<Message>>,
}

/// The body of a request that generates from one message under the
/// instruction of a system.
pub open spec fn prompt_body(
    model: Model,
    input: Message,
    system: Option<Vec<Message>>,
    config: Option<Seq<Seq<char>>>,
) -> GeminiRequestView {
    GeminiRequestView {
        model: model.name(),
        contents: seq![seq![PartView::Text { text: input.text() }]],
        system_instruction: system_parts(system),
        config,
    }
}

impl Streaming {
    /// The body of the request that opens a stream.
    pub fn generate_body(params: &Stream) -> (body: GeminiRequest)
        ensures
            body@ == prompt_body(params.model, params.input, params.system, None),
    {
        let body = GeminiRequest {
            model: params.model.to_string(),
            contents: vec![Content { parts: vec![params.input.to_part()] }],
            system_instruction: system_instruction(&params.system),
            config: None,
        };
        assert(body@.contents[0] =~= seq![PartView::Text { text: params.input.text() }]);
        assert(body@.contents =~= seq![seq![PartView::Text { text: params.input.text() }]]);
        body
    }

    /// What to send to open a stream. Without an API key there is nothing
    /// to send.
    pub fn generate(&self, params: Stream) -> (call: Result<Call<GeminiRequest>, GemsError>)
        ensures
            match request_for(self.client@, Method::Post, "streamGenerateContent"@) {
                Ok(planned) => call matches Ok(made) && made.request@ == planned && made.body@
                    == prompt_body(params.model, params.input, params.system, None),
                Err(error) => call matches Err(refused) && refused@ == error,
            },
    {
        let body = Streaming::generate_body(&params);
        match self.client.request(Method::Post, "streamGenerateContent") {
            Ok(request) => Ok(Call { request, body }),
            Err(error) => Err(error),
        }
    }
}

/// A builder of the parameters of a streamed generation.
#[derive(Debug, Clone)]
pub struct StreamBuilder {
    pub model: Option<Model>,
    pub input: Option<Message>,
    pub system: Option<Vec<Message>>,
}

impl Default for StreamBuilder {
    fn default() -> (builder: Self)
        ensures
            builder.model is None,
            builder.input is None,
            builder.system is None,
    {
        StreamBuilder { model: None, input: None, system: None }
    }
}

impl StreamBuilder {
    /// Sets the model.
    pub fn model(self, model: Model) -> (builder: Self)
        ensures
            builder == (StreamBuilder { model: Some(model), ..self }),
    {
        StreamBuilder { model: Some(model), input: self.input, system: self.system }
    }

    /// Sets the input.
    pub fn input(self, input: Message) -> (builder: Self)
        ensures
            builder == (StreamBuilder { input: Some(input), ..self }),
    {
        StreamBuilder { model: self.model, input: Some(input), system: self.system }
    }

    /// Sets the messages of the system.
    pub fn system(self, system: Vec<Message>) -> (builder: Self)
        ensures
            builder == (StreamBuilder { system: Some(system), ..self }),
    {
        StreamBuilder { model: self.model, input: self.input, system: Some(system) }
    }

    /// The first field, in the order of the parameters, that must be set
    /// and is not.
    pub open spec fn missing(self) -> Option<Seq<char>> {
        if self.model is None {
            Some("model"@)
        } else if self.input is None {
            Some("input"@)
        } else {
            None
        }
    }

    /// The parameters. Building fails where a field that must be set is not,
    /// with the name of the first such field.
    pub fn build(self) -> (built: Result<Stream, GemsError>)
        ensures
            match self.missing() {
                Some(field) => built matches Err(error) && error@
                    == GemsErrorView::UninitializedField(field),
                None => built matches Ok(value) && {
                    &&& Some(value.model) == self.model
                    &&& Some(value.input) == self.input
                    &&& value.system == self.system
                },
            },
    {
        let model = match self.model {
            Some(model) => model,
            None => {
                return Err(GemsError::UninitializedField("model".to_owned()));
            },
        };
        let input = match self.input {
            Some(input) => input,
            None => {
                return Err(GemsError::UninitializedField("input".to_owned()));
            },
        };
        let system = self.system;
        Ok(Stream { model, input, system })
    }
}

} // verus!
