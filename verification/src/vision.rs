//! Generation of text from a message and an image.

use crate::chat::{answer_text, first_text, system_instruction, system_parts, text_result_view};
use crate::client::{request_for, Call, Client, Method};
use crate::error::{GemsError, GemsErrorView};
use crate::messages::Message;
use crate::models::Model;
use crate::requests::{
    Content, GeminiRequest, GeminiRequestView, ImageContent, ImageContentView, Part, PartView,
};
use crate::responses::GeminiResponse;
use crate::traits::CTrait;
use vstd::prelude::*;

verus! {

/// The vision service of a client.
pub struct Visions {
    pub client: Client,
}

/// The parameters of a vision request: the message to answer, a message
/// whose text is the image as base64, and the messages of the system, if
/// any.
#[derive(Debug, Clone)]
pub struct Vision {
    pub input: Message,
    pub image: Message,
    pub system: Option<Vec<Message>>,
}

/// The body of a vision request: one content of the text and then the image,
/// as a JPEG, for the preview model.
pub open spec fn vision_body(params: Vision) -> GeminiRequestView {
    GeminiRequestView {
        model: Model::Pro25Preview.name(),
        contents: seq![
            seq![
                PartView::Text { text: params.input.text() },
                PartView::Image {
                    inline_data: Some(
                        ImageContentView { mime_type: "image/jpeg"@, data: params.image.text() },
                    ),
                },
            ],
        ],
        system_instruction: system_parts(params.system),
        config: None,
    }
}

impl Visions {
    /// The body of a vision request.
    pub fn generate_body(params: &Vision) -> (body: GeminiRequest)
        ensures
            body@ == vision_body(*params),
    {
        let input_part = params.input.to_part();
        let image_part = Part::image(
            Some(
                ImageContent {
                    mime_type: "image/jpeg".to_owned(),
                    data: params.image.content_text().clone(),
                },
            ),
        );
        let body = GeminiRequest {
            model: Model::Pro25Preview.to_string(),
            contents: vec![Content { parts: vec![input_part, image_part] }],
            system_instruction: system_instruction(&params.system),
            config: None,
        };
        assert(body@.contents[0] =~= vision_body(*params).contents[0]);
        assert(body@.contents =~= vision_body(*params).contents);
        body
    }

    /// What to send for a vision request. Without an API key there is
    /// nothing to send.
    pub fn generate(&self, params: Vision) -> (call: Result<Call<GeminiRequest>, GemsError>)
        ensures
            match request_for(self.client@, Method::Post, "generateContent"@) {
                Ok(planned) => call matches Ok(made) && made.request@ == planned && made.body@
                    == vision_body(params),
                Err(error) => call matches Err(refused) && refused@ == error,
            },
    {
        let body = Visions::generate_body(&params);
        match self.client.request(Method::Post, "generateContent") {
            Ok(request) => Ok(Call { request, body }),
            Err(error) => Err(error),
        }
    }

    /// The text that the answer gives.
    pub fn generate_result(response: &GeminiResponse) -> (text: Result<String, GemsError>)
        ensures
            text_result_view(text) == answer_text(*response),
    {
        first_text(response)
    }
}

/// A builder of the parameters of a vision request.
#[derive(Debug, Clone)]
pub struct VisionBuilder {
    pub input: Option<Message>,
    pub image: Option<Message>,
    pub system: Option<Vec<Message>>,
}

impl Default for VisionBuilder {
    fn default() -> (builder: Self)
        ensures
            builder.input is None,
            builder.image is None,
            builder.system is None,
    {
        VisionBuilder { input: None, image: None, system: None }
    }
}

impl VisionBuilder {
    /// Sets the input.
    pub fn input(self, input: Message) -> (builder: Self)
        ensures
            builder == (VisionBuilder { input: Some(input), ..self }),
    {
        VisionBuilder { input: Some(input), image: self.image, system: self.system }
    }

    /// Sets the image.
    pub fn image(self, image: Message) -> (builder: Self)
        ensures
            builder == (VisionBuilder { image: Some(image), ..self }),
    {
        VisionBuilder { input: self.input, image: Some(image), system: self.system }
    }

    /// Sets the messages of the system.
    pub fn system(self, system: Vec<Message>) -> (builder: Self)
        ensures
            builder == (VisionBuilder { system: Some(system), ..self }),
    {
        VisionBuilder { input: self.input, image: self.image, system: Some(system) }
    }

    /// The first field, in the order of the parameters, that must be set
    /// and is not.
    pub open spec fn missing(self) -> Option<Seq<char>> {
        if self.input is None {
            Some("input"@)
        } else if self.image is None {
            Some("image"@)
        } else {
            None
        }
    }

    /// The parameters. Building fails where a field that must be set is not,
    /// with the name of the first such field.
    pub fn build(self) -> (built: Result<Vision, GemsError>)
        ensures
            match self.missing() {
                Some(field) => built matches Err(error) && error@
                    == GemsErrorView::UninitializedField(field),
                None => built matches Ok(value) && {
                    &&& Some(value.input) == self.input
                    &&& Some(value.image) == self.image
                    &&& value.system == self.system
                },
            },
    {
        let input = match self.input {
            Some(input) => input,
            None => {
                return Err(GemsError::UninitializedField("input".to_owned()));
            },
        };
        let image = match self.image {
            Some(image) => image,
            None => {
                return Err(GemsError::UninitializedField("image".to_owned()));
            },
        };
        let system = self.system;
        Ok(Vision { input, image, system })
    }
}

} // verus!
