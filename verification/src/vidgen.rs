//! Generation of a video: a long-running operation that is submitted and
//! then polled.

use crate::client::{request_for, request_view, Call, Client, Method, Request};
use crate::error::{GemsError, GemsErrorView};
use crate::messages::Message;
use crate::models::Model;
use crate::operation::PollPolicy;
use crate::poller::{LongRunningOperationPoller, PollerStateView};
use crate::requests::{
    Content, PartView, VideoGenRequest, VideoGenRequestView, VideoParameters, VideoPrompt,
};
use crate::traits::CTrait;
use vstd::prelude::*;

verus! {

/// The video service of a client.
pub struct Videos {
    pub client: Client,
}

/// The parameters of a video: the model, the message that describes it, and
/// the messages of the system, if any.
#[derive(Debug, Clone)]
pub struct VideoGen {
    pub model: Model,
    pub input: Message,
    pub system: Option<Vec<Message>>,
}

/// The body of the submission of a video: the prompt, in wide format and
/// without people.
pub open spec fn video_body(params: VideoGen) -> VideoGenRequestView {
    VideoGenRequestView {
        prompts: seq![params.input.text()],
        aspect_ratio: "16:9"@,
        person_generation: "dont_allow"@,
    }
}

impl Videos {
    /// The body of the submission. A message always holds the text of its
    /// prompt, so there is always a body.
    pub fn generate_body(params: &VideoGen) -> (body: Result<VideoGenRequest, GemsError>)
        ensures
            body matches Ok(made) && made@ == video_body(*params),
    {
        let content = Content { parts: vec![params.input.to_part()] };
        assert(content@ =~= seq![PartView::Text { text: params.input.text() }]);
        let prompt = match content.prompt_text() {
            Ok(text) => text,
            Err(error) => {
                return Err(error);
            },
        };
        let made = VideoGenRequest {
            instances: vec![VideoPrompt { prompt }],
            parameters: VideoParameters {
                aspect_ratio: "16:9".to_owned(),
                person_generation: "dont_allow".to_owned(),
            },
        };
        assert(made@.prompts =~= seq![params.input.text()]);
        Ok(made)
    }

    /// What to send to submit the job. Without an API key there is nothing
    /// to send.
    pub fn generate(&self, params: VideoGen) -> (call: Result<Call<VideoGenRequest>, GemsError>)
        ensures
            match request_for(self.client@, Method::Post, "predictLongRunning"@) {
                Ok(planned) => call matches Ok(made) && made.request@ == planned && made.body@
                    == video_body(params),
                Err(error) => call matches Err(refused) && refused@ == error,
            },
    {
        let body = match Videos::generate_body(&params) {
            Ok(body) => body,
            Err(error) => {
                return Err(error);
            },
        };
        match self.client.request(Method::Post, "predictLongRunning") {
            Ok(request) => Ok(Call { request, body }),
            Err(error) => Err(error),
        }
    }

    /// The request that asks for the status of the operation, which is
    /// addressed by its name.
    pub fn poll(&self, operation: &str) -> (request: Result<Request, GemsError>)
        ensures
            request_view(request) == request_for(self.client@, Method::Get, operation@),
    {
        self.client.request(Method::Get, operation)
    }

    /// A poller for one video, under the standard policy.
    pub fn poller() -> (poller: LongRunningOperationPoller)
        ensures
            poller.policy_view() == (PollPolicy { interval_ms: 5000, max_attempts: 30 }),
            poller.state_view() == PollerStateView::Submitting,
    {
        LongRunningOperationPoller::new(PollPolicy::standard())
    }
}

/// A builder of the parameters of a video.
#[derive(Debug, Clone)]
pub struct VideoGenBuilder {
    pub model: Option<Model>,
    pub input: Option<Message>,
    pub system: Option<Vec<Message>>,
}

impl Default for VideoGenBuilder {
    fn default() -> (builder: Self)
        ensures
            builder.model is None,
            builder.input is None,
            builder.system is None,
    {
        VideoGenBuilder { model: None, input: None, system: None }
    }
}

impl VideoGenBuilder {
    /// Sets the model.
    pub fn model(self, model: Model) -> (builder: Self)
        ensures
            builder == (VideoGenBuilder { model: Some(model), ..self }),
    {
        VideoGenBuilder { model: Some(model), input: self.input, system: self.system }
    }

    /// Sets the input.
    pub fn input(self, input: Message) -> (builder: Self)
        ensures
            builder == (VideoGenBuilder { input: Some(input), ..self }),
    {
        VideoGenBuilder { model: self.model, input: Some(input), system: self.system }
    }

    /// Sets the messages of the system.
    pub fn system(self, system: Vec<Message>) -> (builder: Self)
        ensures
            builder == (VideoGenBuilder { system: Some(system), ..self }),
    {
        VideoGenBuilder { model: self.model, input: self.input, system: Some(system) }
    }

    /// The first field, in the order of the parameters, that must be set
    /// and is not.
    pub open spec fn missing(self) -> Option<Seq<char>> {
        if self.model is None {
            Some("model"@)
        } else if self.input is None {
            Some("input"@)
        } else {
            None
        }
    }

    /// The parameters. Building fails where a field that must be set is not,
    /// with the name of the first such field.
    pub fn build(self) -> (built: Result<VideoGen, GemsError>)
        ensures
            match self.missing() {
                Some(field) => built matches Err(error) && error@
                    == GemsErrorView::UninitializedField(field),
                None => built matches Ok(value) && {
                    &&& Some(value.model) == self.model
                    &&& Some(value.input) == self.input
                    &&& value.system == self.system
                },
            },
    {
        let model = match self.model {
            Some(model) => model,
            None => {
                return Err(GemsError::UninitializedField("model".to_owned()));
            },
        };
        let input = match self.input {
            Some(input) => input,
            None => {
                return Err(GemsError::UninitializedField("input".to_owned()));
            },
        };
        let system = self.system;
        Ok(VideoGen { model, input, system })
    }
}

} // verus!
