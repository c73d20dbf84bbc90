//! The bodies of the requests that the API takes.

use crate::error::{GemsError, GemsErrorView};
use vstd::prelude::*;

verus! {

/// The image of a request: its MIME type and its data as base64 text.
#[derive(Debug, Clone, PartialEq, Eq)]
pub struct ImageContent {
    /// The MIME type of the image.
    pub mime_type: String,
    /// The image data, as base64 text.
    pub data: String,
}

/// The mathematical value of an `ImageContent`.
pub struct ImageContentView {
    pub mime_type: Seq<char>,
    pub data: Seq<char>,
}

impl View for ImageContent {
    type V = ImageContentView;

    open spec fn view(&self) -> ImageContentView {
        ImageContentView { mime_type: self.mime_type@, data: self.data@ }
    }
}

/// One part of a content: text, or an image.
#[derive(Debug, Clone, PartialEq, Eq)]
pub enum Part {
    /// A text part.
    Text { text: String },
    /// An image part.
    Image { inline_data: Option<ImageContent> },
}

/// The mathematical value of a `Part`.
pub enum PartView {
    Text { text: Seq<char> },
    Image { inline_data: Option<ImageContentView> },
}

impl View for Part {
    type V = PartView;

    open spec fn view(&self) -> PartView {
        match self {
            Part::Text { text } => PartView::Text { text: text@ },
            Part::Image { inline_data } => PartView::Image {
                inline_data: match inline_data {
                    Some(image) => Some(image@),
                    None => None,
                },
            },
        }
    }
}

impl Part {
    /// A text part that holds `text`.
    pub fn text(text: &str) -> (part: Self)
        ensures
            part@ == (PartView::Text { text: text@ }),
    {
        Part::Text { text: text.to_owned() }
    }

    /// An image part that holds `inline_data`.
    pub fn image(inline_data: Option<ImageContent>) -> (part: Self)
        ensures
            part == (Part::Image { inline_data }),
    {
        Part::Image { inline_data }
    }
}

/// The views of a sequence of parts.
pub open spec fn part_views(parts: Seq<Part>) -> Seq<PartView> {
    parts.map_values(|part: Part| part@)
}

/// A content: its parts, in order.
#[derive(Debug, Clone, PartialEq, Eq)]
pub struct Content {
    /// The parts of the content.
    pub parts: Vec<Part>,
}

impl View for Content {
    type V = Seq<PartView>;

    open spec fn view(&self) -> Seq<PartView> {
        part_views(self.parts@)
    }
}

/// The text of the first text part of `parts` at or after `from`.
pub open spec fn first_text_part(parts: Seq<PartView>, from: int) -> Option<Seq<char>>
    decreases parts.len() - from,
{
    if from < 0 || from >= parts.len() {
        None
    } else if parts[from] is Text {
        Some(parts[from]->text)
    } else {
        first_text_part(parts, from + 1)
    }
}

impl Content {
    /// The text of the prompt that the content holds: that of its first
    /// text part. A content without a text part holds no prompt.
    pub fn prompt_text(&self) -> (prompt: Result<String, GemsError>)
        ensures
            match prompt {
                Ok(text) => first_text_part(self@, 0) == Some(text@),
                Err(error) => first_text_part(self@, 0) is None && error@
                    == GemsErrorView::PromptWithoutText,
            },
    {
        let mut i: usize = 0;
        while i < self.parts.len()
            invariant
                i <= self.parts.len(),
                first_text_part(self@, 0) == first_text_part(self@, i as int),
            decreases self.parts.len() - i,
        {
            match &self.parts[i] {
                Part::Text { text } => {
                    return Ok(text.clone());
                },
                Part::Image { .. } => {},
            }
            i += 1;
        }
        Err(GemsError::PromptWithoutText)
    }
}

/// The views of a sequence of contents.
pub open spec fn content_views(contents: Seq<Content>) -> Seq<Seq<PartView>> {
    contents.map_values(|content: Content| content@)
}

/// The view of an optional content.
pub open spec fn optional_content_view(content: Option<Content>) -> Option<Seq<PartView>> {
    match content {
        Some(value) => Some(value@),
        None => None,
    }
}

/// What kinds of output a request asks for.
#[derive(Debug, Clone, PartialEq, Eq)]
pub struct GenerationConfig {
    pub response_modalities: Vec<String>,
}

/// The texts of a sequence of strings.
pub open spec fn string_views(strings: Seq<String>) -> Seq<Seq<char>> {
    strings.map_values(|s: String| s@)
}

impl View for GenerationConfig {
    type V = Seq<Seq<char>>;

    open spec fn view(&self) -> Seq<Seq<char>> {
        string_views(self.response_modalities@)
    }
}

/// The body of a request for generated content.
#[derive(Debug, Clone, PartialEq, Eq)]
pub struct GeminiRequest {
    /// The name of the model to use.
    pub model: String,
    /// The contents to generate from.
    pub contents: Vec<Content>,
    /// The instruction of the system, if any.
    pub system_instruction: Option<Content>,
    /// The generation configuration, if any.
    pub config: Option<GenerationConfig>,
}

/// The mathematical value of a `GeminiRequest`.
pub struct GeminiRequestView {
    pub model: Seq<char>,
    pub contents: Seq<Seq<PartView>>,
    pub system_instruction: Option<Seq<PartView>>,
    pub config: Option<Seq<Seq<char>>>,
}

impl View for GeminiRequest {
    type V = GeminiRequestView;

    open spec fn view(&self) -> GeminiRequestView {
        GeminiRequestView {
            model: self.model@,
            contents: content_views(self.contents@),
            system_instruction: optional_content_view(self.system_instruction),
            config: match self.config {
                Some(config) => Some(config@),
                None => None,
            },
        }
    }
}

/// The body of a request to embed one content.
#[derive(Debug, Clone, PartialEq, Eq)]
pub struct GeminiEmbedRequest {
    /// The name of the model to use, with its `models/` prefix.
    pub model: String,
    /// The content to embed.
    pub content: Content,
}

/// The mathematical value of a `GeminiEmbedRequest`.
pub struct GeminiEmbedRequestView {
    pub model: Seq<char>,
    pub content: Seq<PartView>,
}

impl View for GeminiEmbedRequest {
    type V = GeminiEmbedRequestView;

    open spec fn view(&self) -> GeminiEmbedRequestView {
        GeminiEmbedRequestView { model: self.model@, content: self.content@ }
    }
}

/// The body of a request to embed several contents at once.
#[derive(Debug, Clone, PartialEq, Eq)]
pub struct GeminiEmbedRequests {
    /// One request for each content.
    pub requests: Vec<GeminiEmbedRequest>,
}

impl View for GeminiEmbedRequests {
    type V = Seq<GeminiEmbedRequestView>;

    open spec fn view(&self) -> Seq<GeminiEmbedRequestView> {
        self.requests@.map_values(|request: GeminiEmbedRequest| request@)
    }
}

/// One candidate of a response.
#[derive(Debug, Clone, PartialEq, Eq)]
pub struct Candidate {
    /// The content of the candidate.
    pub content: Content,
}

/// The prompt of a request for a video.
#[derive(Debug, Clone, PartialEq, Eq)]
pub struct VideoPrompt {
    pub prompt: String,
}

/// The parameters of a request for a video.
#[derive(Debug, Clone, PartialEq, Eq)]
pub struct VideoParameters {
    pub aspect_ratio: String,
    pub person_generation: String,
}

/// The body of a request for a video.
#[derive(Debug, Clone, PartialEq, Eq)]
pub struct VideoGenRequest {
    pub instances: Vec<VideoPrompt>,
    pub parameters: VideoParameters,
}

/// The mathematical value of a `VideoGenRequest`.
pub struct VideoGenRequestView {
    pub prompts: Seq<Seq<char>>,
    pub aspect_ratio: Seq<char>,
    pub person_generation: Seq<char>,
}

impl View for VideoGenRequest {
    type V = VideoGenRequestView;

    open spec fn view(&self) -> VideoGenRequestView {
        VideoGenRequestView {
            prompts: self.instances@.map_values(|instance: VideoPrompt| instance.prompt@),
            aspect_ratio: self.parameters.aspect_ratio@,
            person_generation: self.parameters.person_generation@,
        }
    }
}

/// The name of a prebuilt voice.
#[derive(Debug, Clone, PartialEq, Eq)]
pub struct PrebuiltVoiceConfig {
    pub voice_name: String,
}

/// The voice of a request for speech.
#[derive(Debug, Clone, PartialEq, Eq)]
pub struct VoiceConfig {
    pub prebuilt_voice_config: PrebuiltVoiceConfig,
}

/// The speech settings of a request for speech.
#[derive(Debug, Clone, PartialEq, Eq)]
pub struct SpeechConfig {
    pub voice_config: VoiceConfig,
}

/// The generation configuration of a request for speech.
#[derive(Debug, Clone, PartialEq, Eq)]
pub struct TtsGenerationConfig {
    pub response_modalities: Vec<String>,
    pub speech_config: SpeechConfig,
}

/// The body of a request for speech.
#[derive(Debug, Clone, PartialEq, Eq)]
pub struct TtsRequest {
    pub model: String,
    pub contents: Vec<Content>,
    pub generation_config: TtsGenerationConfig,
    pub system_instruction: Option<Content>,
}

/// The mathematical value of a `TtsRequest`.
pub struct TtsRequestView {
    pub model: Seq<char>,
    pub contents: Seq<Seq<PartView>>,
    pub response_modalities: Seq<Seq<char>>,
    pub voice_name: Seq<char>,
    pub system_instruction: Option<Seq<PartView>>,
}

impl View for TtsRequest {
    type V = TtsRequestView;

    open spec fn view(&self) -> TtsRequestView {
        TtsRequestView {
            model: self.model@,
            contents: content_views(self.contents@),
            response_modalities: string_views(self.generation_config.response_modalities@),
            voice_name: self.generation_config.speech_config.voice_config.prebuilt_voice_config.voice_name@,
            system_instruction: optional_content_view(self.system_instruction),
        }
    }
}

} // verus!
