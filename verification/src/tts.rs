//! Generation of speech from text.

use crate::chat::{system_instruction, system_parts};
use crate::client::{request_for, Call, Client, Method};
use crate::codec::{decode_payload, payload_of, payload_view, standard_decoding};
use crate::error::{GemsError, GemsErrorView};
use crate::messages::Message;
use crate::models::Model;
use crate::poller::{error_message, rejection_message};
use crate::requests::{
    Content, Part, PartView, PrebuiltVoiceConfig, SpeechConfig, TtsGenerationConfig, TtsRequest,
    TtsRequestView, VoiceConfig,
};
use crate::responses::{find_data, first_data, TtsResponse};
use crate::traits::CTrait;
use crate::text::text_view;
use vstd::prelude::*;

verus! {

/// The speech service of a client.
pub struct Tts {
    pub client: Client,
}

/// The parameters of a speech request: the model, the message to speak, the
/// messages of the system, if any, and the name of the voice.
#[derive(Debug, Clone)]
pub struct TtsGen {
    pub model: Model,
    pub input: Message,
    pub system: Option<Vec<Message>>,
    pub voice: String,
}

/// The body of a speech request: the text to speak, audio as the only kind
/// of output, and the voice.
pub open spec fn tts_body(params: TtsGen) -> TtsRequestView {
    TtsRequestView {
        model: params.model.name(),
        contents: seq![seq![PartView::Text { text: params.input.text() }]],
        response_modalities: seq!["AUDIO"@],
        voice_name: params.voice@,
        system_instruction: system_parts(params.system),
    }
}

/// The base64 text of the audio of an answer: the first inline data of its
/// last candidate.
pub open spec fn audio_data(response: TtsResponse) -> Option<Seq<char>> {
    match response.candidates {
        None => None,
        Some(candidates) => if candidates@.len() == 0 {
            None
        } else {
            first_data(candidates@.last().content.parts@, 0)
        },
    }
}

/// The audio of an answer, given what decoding its data gives.
pub open spec fn audio_of(response: TtsResponse) -> Result<Seq<u8>, GemsErrorView> {
    match audio_data(response) {
        Some(text) => payload_of(standard_decoding(text)),
        None => Err(GemsErrorView::NoAudio),
    }
}

impl Tts {
    /// The body of a speech request. A message always holds the text of its
    /// prompt, so there is always a body.
    pub fn generate_body(params: &TtsGen) -> (body: Result<TtsRequest, GemsError>)
        ensures
            body matches Ok(made) && made@ == tts_body(*params),
    {
        let content = Content { parts: vec![params.input.to_part()] };
        assert(content@ =~= seq![PartView::Text { text: params.input.text() }]);
        let prompt = match content.prompt_text() {
            Ok(text) => text,
            Err(error) => {
                return Err(error);
            },
        };
        let made = TtsRequest {
            model: params.model.to_string(),
            contents: vec![Content { parts: vec![Part::Text { text: prompt }] }],
            generation_config: TtsGenerationConfig {
                response_modalities: vec!["AUDIO".to_owned()],
                speech_config: SpeechConfig {
                    voice_config: VoiceConfig {
                        prebuilt_voice_config: PrebuiltVoiceConfig {
                            voice_name: params.voice.clone(),
                        },
                    },
                },
            },
            system_instruction: system_instruction(&params.system),
        };
        assert(made@.contents[0] =~= seq![PartView::Text { text: params.input.text() }]);
        assert(made@.contents =~= seq![seq![PartView::Text { text: params.input.text() }]]);
        assert(made@.response_modalities =~= seq!["AUDIO"@]);
        Ok(made)
    }

    /// What to send for speech. Without an API key there is nothing to
    /// send.
    pub fn generate(&self, params: TtsGen) -> (call: Result<Call<TtsRequest>, GemsError>)
        ensures
            match request_for(self.client@, Method::Post, "generateContent"@) {
                Ok(planned) => call matches Ok(made) && made.request@ == planned && made.body@
                    == tts_body(params),
                Err(error) => call matches Err(refused) && refused@ == error,
            },
    {
        let body = match Tts::generate_body(&params) {
            Ok(body) => body,
            Err(error) => {
                return Err(error);
            },
        };
        match self.client.request(Method::Post, "generateContent") {
            Ok(request) => Ok(Call { request, body }),
            Err(error) => Err(error),
        }
    }

    /// The error of an answer with a failure status: the message of its
    /// error envelope where the body could be read as one, else the body as
    /// it came.
    pub fn generate_failure(envelope: Option<String>, body: String) -> (error: GemsError)
        ensures
            error@ == GemsErrorView::OperationFailed(
                rejection_message(text_view(envelope), body@),
            ),
    {
        GemsError::OperationFailed(error_message(envelope, body))
    }

    /// The base64 text of the audio of an answer.
    pub fn audio_text(response: &TtsResponse) -> (data: Option<&String>)
        ensures
            match data {
                Some(text) => audio_data(*response) == Some(text@),
                None => audio_data(*response) is None,
            },
    {
        match &response.candidates {
            None => None,
            Some(candidates) => {
                if candidates.len() == 0 {
                    return None;
                }
                find_data(&candidates[candidates.len() - 1].content.parts)
            },
        }
    }

    /// The bytes of the audio of an answer: the first inline data of its
    /// last candidate, decoded from base64.
    pub fn generate_result(response: &TtsResponse) -> (audio: Result<Vec<u8>, GemsError>)
        ensures
            payload_view(audio) == audio_of(*response),
    {
        match Tts::audio_text(response) {
            Some(text) => decode_payload(text.as_str()),
            None => Err(GemsError::NoAudio),
        }
    }
}

/// A builder of the parameters of a speech request.
#[derive(Debug, Clone)]
pub struct TtsGenBuilder {
    pub model: Option<Model>,
    pub input: Option<Message>,
    pub system: Option<Vec<Message>>,
    pub voice: Option<String>,
}

impl Default for TtsGenBuilder {
    fn default() -> (builder: Self)
        ensures
            builder.model is None,
            builder.input is None,
            builder.system is None,
            builder.voice is None,
    {
        TtsGenBuilder { model: None, input: None, system: None, voice: None }
    }
}

impl TtsGenBuilder {
    /// Sets the model.
    pub fn model(self, model: Model) -> (builder: Self)
        ensures
            builder == (TtsGenBuilder { model: Some(model), ..self }),
    {
        TtsGenBuilder { model: Some(model), input: self.input, system: self.system, voice: self.voice }
    }

    /// Sets the input.
    pub fn input(self, input: Message) -> (builder: Self)
        ensures
            builder == (TtsGenBuilder { input: Some(input), ..self }),
    {
        TtsGenBuilder { model: self.model, input: Some(input), system: self.system, voice: self.voice }
    }

    /// Sets the messages of the system.
    pub fn system(self, system: Vec<Message>) -> (builder: Self)
        ensures
            builder == (TtsGenBuilder { system: Some(system), ..self }),
    {
        TtsGenBuilder { model: self.model, input: self.input, system: Some(system), voice: self.voice }
    }

    /// Sets the voice.
    pub fn voice(self, voice: String) -> (builder: Self)
        ensures
            builder == (TtsGenBuilder { voice: Some(voice), ..self }),
    {
        TtsGenBuilder { model: self.model, input: self.input, system: self.system, voice: Some(voice) }
    }

    /// The first field, in the order of the parameters, that must be set
    /// and is not.
    pub open spec fn missing(self) -> Option<Seq<char>> {
        if self.model is None {
            Some("model"@)
        } else if self.input is None {
            Some("input"@)
        } else {
            None
        }
    }

    /// The parameters. Building fails where a field that must be set is not,
    /// with the name of the first such field.
    pub fn build(self) -> (built: Result<TtsGen, GemsError>)
        ensures
            match self.missing() {
                Some(field) => built matches Err(error) && error@
                    == GemsErrorView::UninitializedField(field),
                None => built matches Ok(value) && {
                    &&& Some(value.model) == self.model
                    &&& Some(value.input) == self.input
                    &&& value.system == self.system
                    &&& match self.voice {
                        Some(voice) => value.voice == voice,
                        None => value.voice@ == "Kore"@,
                    }
                },
            },
    {
        let model = match self.model {
            Some(model) => model,
            None => {
                return Err(GemsError::UninitializedField("model".to_owned()));
            },
        };
        let input = match self.input {
            Some(input) => input,
            None => {
                return Err(GemsError::UninitializedField("input".to_owned()));
            },
        };
        let system = self.system;
        let voice = match self.voice {
            Some(voice) => voice,
            None => "Kore".to_owned(),
        };
        Ok(TtsGen { model, input, system, voice })
    }
}

} // verus!
