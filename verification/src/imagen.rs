//! Generation of an image.

use crate::chat::system_instruction;
use crate::client::{request_for, Call, Client, Method};
use crate::codec::{decode_payload, payload_of, payload_view, standard_decoding};
use crate::error::{GemsError, GemsErrorView};
use crate::messages::Message;
use crate::models::Model;
use crate::requests::{Content, GeminiRequest, GenerationConfig, PartView};
use crate::responses::{find_data, first_data, ImagenResponse};
use crate::stream::prompt_body;
use crate::traits::CTrait;
use vstd::prelude::*;

verus! {

/// The image service of a client.
pub struct Images {
    pub client: Client,
}

/// The parameters of an image: the model, the message that describes it,
/// and the messages of the system, if any.
#[derive(Debug, Clone)]
pub struct ImageGen {
    pub model: Model,
    pub input: Message,
    pub system: Option<Vec<Message>>,
}

/// The kinds of output that a request for an image asks for.
pub open spec fn image_modalities() -> Seq<Seq<char>> {
    seq!["Text"@, "Image"@]
}

/// The base64 text of the image of an answer: the first inline data of its
/// first candidate.
pub open spec fn image_data(response: ImagenResponse) -> Result<Seq<char>, GemsErrorView> {
    match response.candidates {
        None => Err(GemsErrorView::MissingCandidates),
        Some(candidates) => if candidates@.len() == 0 {
            Err(GemsErrorView::NoCandidate)
        } else {
            match first_data(candidates@[0].content.parts@, 0) {
                Some(text) => Ok(text),
                None => Err(GemsErrorView::NoImage),
            }
        },
    }
}

/// The image of an answer, given what decoding its data gives.
pub open spec fn image_of(response: ImagenResponse) -> Result<Seq<u8>, GemsErrorView> {
    match image_data(response) {
        Ok(text) => payload_of(standard_decoding(text)),
        Err(error) => Err(error),
    }
}

impl Images {
    /// The body of the request for an image: it asks for text and image.
    pub fn generate_body(params: &ImageGen) -> (body: GeminiRequest)
        ensures
            body@ == prompt_body(
                params.model,
                params.input,
                params.system,
                Some(image_modalities()),
            ),
    {
        let config = GenerationConfig {
            response_modalities: vec!["Text".to_owned(), "Image".to_owned()],
        };
        assert(config@ =~= image_modalities());
        let body = GeminiRequest {
            model: params.model.to_string(),
            contents: vec![Content { parts: vec![params.input.to_part()] }],
            system_instruction: system_instruction(&params.system),
            config: Some(config),
        };
        assert(body@.contents[0] =~= seq![PartView::Text { text: params.input.text() }]);
        assert(body@.contents =~= seq![seq![PartView::Text { text: params.input.text() }]]);
        body
    }

    /// What to send for an image. Without an API key there is nothing to
    /// send.
    pub fn generate(&self, params: ImageGen) -> (call: Result<Call<GeminiRequest>, GemsError>)
        ensures
            match request_for(self.client@, Method::Post, "generateContent"@) {
                Ok(planned) => call matches Ok(made) && made.request@ == planned && made.body@
                    == prompt_body(
                        params.model,
                        params.input,
                        params.system,
                        Some(image_modalities()),
                    ),
                Err(error) => call matches Err(refused) && refused@ == error,
            },
    {
        let body = Images::generate_body(&params);
        match self.client.request(Method::Post, "generateContent") {
            Ok(request) => Ok(Call { request, body }),
            Err(error) => Err(error),
        }
    }

    /// The base64 text of the image of an answer.
    pub fn image_text(response: &ImagenResponse) -> (data: Result<&String, GemsError>)
        ensures
            match data {
                Ok(text) => image_data(*response) == Ok::<Seq<char>, GemsErrorView>(text@),
                Err(error) => image_data(*response) == Err::<Seq<char>, GemsErrorView>(error@),
            },
    {
        match &response.candidates {
            None => Err(GemsError::MissingCandidates),
            Some(candidates) => {
                if candidates.len() == 0 {
                    return Err(GemsError::NoCandidate);
                }
                match find_data(&candidates[0].content.parts) {
                    Some(text) => Ok(text),
                    None => Err(GemsError::NoImage),
                }
            },
        }
    }

    /// The bytes of the image of an answer: the first inline data of its
    /// first candidate, decoded from base64.
    pub fn generate_result(response: &ImagenResponse) -> (image: Result<Vec<u8>, GemsError>)
        ensures
            payload_view(image) == image_of(*response),
    {
        match Images::image_text(response) {
            Ok(text) => decode_payload(text.as_str()),
            Err(error) => Err(error),
        }
    }
}

/// A builder of the parameters of an image.
#[derive(Debug, Clone)]
pub struct ImageGenBuilder {
    pub model: Option<Model>,
    pub input: Option<Message>,
    pub system: Option<Vec<Message>>,
}

impl Default for ImageGenBuilder {
    fn default() -> (builder: Self)
        ensures
            builder.model is None,
            builder.input is None,
            builder.system is None,
    {
        ImageGenBuilder { model: None, input: None, system: None }
    }
}

impl ImageGenBuilder {
    /// Sets the model.
    pub fn model(self, model: Model) -> (builder: Self)
        ensures
            builder == (ImageGenBuilder { model: Some(model), ..self }),
    {
        ImageGenBuilder { model: Some(model), input: self.input, system: self.system }
    }

    /// Sets the input.
    pub fn input(self, input: Message) -> (builder: Self)
        ensures
            builder == (ImageGenBuilder { input: Some(input), ..self }),
    {
        ImageGenBuilder { model: self.model, input: Some(input), system: self.system }
    }

    /// Sets the messages of the system.
    pub fn system(self, system: Vec<Message>) -> (builder: Self)
        ensures
            builder == (ImageGenBuilder { system: Some(system), ..self }),
    {
        ImageGenBuilder { model: self.model, input: self.input, system: Some(system) }
    }

    /// The first field, in the order of the parameters, that must be set
    /// and is not.
    pub open spec fn missing(self) -> Option<Seq<char>> {
        if self.model is None {
            Some("model"@)
        } else if self.input is None {
            Some("input"@)
        } else {
            None
        }
    }

    /// The parameters. Building fails where a field that must be set is not,
    /// with the name of the first such field.
    pub fn build(self) -> (built: Result<ImageGen, GemsError>)
        ensures
            match self.missing() {
                Some(field) => built matches Err(error) && error@
                    == GemsErrorView::UninitializedField(field),
                None => built matches Ok(value) && {
                    &&& Some(value.model) == self.model
                    &&& Some(value.input) == self.input
                    &&& value.system == self.system
                },
            },
    {
        let model = match self.model {
            Some(model) => model,
            None => {
                return Err(GemsError::UninitializedField("model".to_owned()));
            },
        };
        let input = match self.input {
            Some(input) => input,
            None => {
                return Err(GemsError::UninitializedField("input".to_owned()));
            },
        };
        let system = self.system;
        Ok(ImageGen { model, input, system })
    }
}

} // verus!
