//! The commands of the command line, and what each of them asks of the
//! library. Reading the arguments and the environment is left to the
//! program.

use crate::chat::Chat;
use crate::embed::{BatchEmbedding, Embedding};
use crate::imagen::ImageGen;
use crate::messages::{Content, Message};
use crate::models::{Mod, Model};
use crate::requests::string_views;
use crate::tokens::Token;
use crate::tts::TtsGen;
use crate::vidgen::VideoGen;
use vstd::prelude::*;

verus! {

/// Generate content from a text.
#[derive(Debug, Clone, PartialEq, Eq)]
pub struct Generate {
    /// The text to generate content from.
    pub text: String,
}

/// Stream generated content for a text.
#[derive(Debug, Clone, PartialEq, Eq)]
pub struct Stream {
    /// The text to generate content from.
    pub text: String,
}

/// Count the tokens of a text.
#[derive(Debug, Clone, PartialEq, Eq)]
pub struct Count {
    /// The text to count tokens from.
    pub text: String,
}

/// Embed a text.
#[derive(Debug, Clone, PartialEq, Eq)]
pub struct Embed {
    /// The text to embed content from.
    pub text: String,
}

/// Embed several texts at once.
#[derive(Debug, Clone, PartialEq, Eq)]
pub struct Batch {
    /// The texts to embed contents from.
    pub texts: Vec<String>,
}

/// Show information on the selected model.
#[derive(Debug, Clone, Copy, PartialEq, Eq, Structural)]
pub struct Info {}

/// List the models.
#[derive(Debug, Clone, Copy, PartialEq, Eq, Structural)]
pub struct List {}

/// Describe an image.
#[derive(Debug, Clone, PartialEq, Eq)]
pub struct Vision {
    /// The path to the image to describe.
    pub image: String,
    /// The text to generate content from.
    pub text: String,
}

/// Generate an image from a text.
#[derive(Debug, Clone, PartialEq, Eq)]
pub struct Imagen {
    /// The text to generate the image from.
    pub text: String,
}

/// Generate a video from a text.
#[derive(Debug, Clone, PartialEq, Eq)]
pub struct Vidgen {
    /// The text to generate the video from.
    pub text: String,
}

/// Speak a text.
#[derive(Debug, Clone, PartialEq, Eq)]
pub struct Tts {
    /// The prompt.
    pub text: String,
    /// The voice.
    pub voice: String,
}

/// A command of the command line.
#[derive(Debug, Clone, PartialEq, Eq)]
pub enum Command {
    Generate(Generate),
    Vision(Vision),
    Stream(Stream),
    Count(Count),
    Embed(Embed),
    Batch(Batch),
    Info(Info),
    List(List),
    Imagen(Imagen),
    Vidgen(Vidgen),
    Tts(Tts),
}

/// The arguments of the command line. Without a command the program opens
/// the terminal interface.
#[derive(Debug, Clone, PartialEq, Eq)]
pub struct Cli {
    /// The API key for authentication.
    pub api_key: Option<String>,
    /// The model to be used.
    pub model: Option<String>,
    pub cmd: Option<Command>,
}

/// Whether `message` is that of a user, holds `text` and has no name.
pub open spec fn is_user_text(message: Message, text: Seq<char>) -> bool {
    message matches Message::User { content, name } && content@ == text && name is None
}

/// The message of a user that holds `text`, without a name.
pub fn user_message(text: String) -> (message: Message)
    ensures
        is_user_text(message, text@),
{
    Message::User { content: Content::Text(text), name: None }
}

/// Whether `messages` are those of a user that hold `texts`, one each, in
/// order.
pub open spec fn are_user_texts(messages: Seq<Message>, texts: Seq<Seq<char>>) -> bool {
    &&& messages.len() == texts.len()
    &&& forall|i: int| 0 <= i < messages.len() ==> is_user_text(#[trigger] messages[i], texts[i])
}

impl Cli {
    /// The API key to use: that of the arguments, else that of the
    /// environment, else none at all, which is the empty key.
    pub fn api_key_or(argument: Option<String>, environment: Option<String>) -> (key: String)
        ensures
            key@ == match (argument, environment) {
                (Some(given), _) => given@,
                (None, Some(found)) => found@,
                (None, None) => Seq::<char>::empty(),
            },
    {
        match argument {
            Some(given) => given,
            None => match environment {
                Some(found) => found,
                None => String::new(),
            },
        }
    }

    /// The name of the model to use: that of the arguments, else that of
    /// the environment, else that of the default model.
    pub fn model_or(argument: Option<String>, environment: Option<String>) -> (name: String)
        ensures
            name@ == match (argument, environment) {
                (Some(given), _) => given@,
                (None, Some(found)) => found@,
                (None, None) => Model::Flash20.name(),
            },
    {
        match argument {
            Some(given) => given,
            None => match environment {
                Some(found) => found,
                None => Model::Flash20.to_string(),
            },
        }
    }
}

impl Command {
    /// The model that the client is switched to before the command runs,
    /// where the command asks for one.
    pub open spec fn model_needed(&self) -> Option<Model> {
        match self {
            Command::Embed(_) => Some(Model::Embedding),
            Command::Batch(_) => Some(Model::Embedding),
            Command::Imagen(_) => Some(Model::FlashExpImage),
            Command::Vidgen(_) => Some(Model::Veo2),
            Command::Tts(_) => Some(Model::Tts),
            _ => None,
        }
    }

    /// The model that the client is switched to before the command runs.
    pub fn client_model(&self) -> (model: Option<Model>)
        ensures
            model == self.model_needed(),
    {
        match self {
            Command::Embed(_) => Some(Model::Embedding),
            Command::Batch(_) => Some(Model::Embedding),
            Command::Imagen(_) => Some(Model::FlashExpImage),
            Command::Vidgen(_) => Some(Model::Veo2),
            Command::Tts(_) => Some(Model::Tts),
            _ => None,
        }
    }

    /// The file that the command writes its result to, where it writes one.
    pub fn output_file(&self) -> (file: Option<&'static str>)
        ensures
            match self {
                Command::Imagen(_) => file matches Some(name) && name@ == "output.png"@,
                Command::Vidgen(_) => file matches Some(name) && name@ == "output.mp4"@,
                Command::Tts(_) => file matches Some(name) && name@ == "output.pcm"@,
                _ => file is None,
            },
    {
        match self {
            Command::Imagen(_) => Some("output.png"),
            Command::Vidgen(_) => Some("output.mp4"),
            Command::Tts(_) => Some("output.pcm"),
            _ => None,
        }
    }
}

impl Generate {
    /// The chat that the command asks for: the text as the one message of a
    /// user, for the fast model.
    pub fn params(self) -> (chat: Chat)
        ensures
            chat.model == Model::Flash20,
            are_user_texts(chat.messages@, seq![self.text@]),
            chat.system is None,
    {
        Chat { model: Model::Flash20, messages: vec![user_message(self.text)], system: None }
    }
}

impl Stream {
    /// The stream that the command asks for: the text as a message of a
    /// user, for the fast model.
    pub fn params(self) -> (stream: crate::stream::Stream)
        ensures
            stream.model == Model::Flash20,
            is_user_text(stream.input, self.text@),
            stream.system is None,
    {
        crate::stream::Stream {
            model: Model::Flash20,
            input: user_message(self.text),
            system: None,
        }
    }
}

impl Count {
    /// The count that the command asks for, with the default model.
    pub fn params(self) -> (count: Token)
        ensures
            count.model == Model::Flash20,
            is_user_text(count.input, self.text@),
    {
        Token { model: Model::default(), input: user_message(self.text) }
    }
}

impl Embed {
    /// The embedding that the command asks for, with the embedding model.
    pub fn params(self) -> (embedding: Embedding)
        ensures
            embedding.model == Model::Embedding,
            is_user_text(embedding.input, self.text@),
    {
        Embedding { model: Model::Embedding, input: user_message(self.text) }
    }
}

impl Batch {
    /// The batch that the command asks for: each text as a message of a
    /// user, in order, with the embedding model.
    pub fn params(self) -> (batch: BatchEmbedding)
        ensures
            batch.model == Model::Embedding,
            are_user_texts(batch.input@, string_views(self.texts@)),
    {
        let mut input: Vec<Message> = Vec::new();
        let ghost texts = string_views(self.texts@);
        for text in it: self.texts
            invariant
                texts == string_views(it.seq()),
                are_user_texts(input@, texts.take(it.index() as int)),
        {
            input.push(user_message(text));
        }
        assert(texts.take(texts.len() as int) =~= texts);
        BatchEmbedding { model: Model::Embedding, input }
    }
}

impl Info {
    /// The request for information that the command asks for, with the
    /// default model.
    pub fn params(self) -> (params: Mod)
        ensures
            params.model == Model::Flash20,
    {
        Mod { model: Model::default() }
    }
}

impl Vision {
    /// The vision request that the command asks for: the text as a message
    /// of a user, and the image, as base64, as the message of a tool.
    pub fn params(self, image_data: String) -> (vision: crate::vision::Vision)
        ensures
            is_user_text(vision.input, self.text@),
            vision.image matches Message::Tool { content } && content@ == image_data@,
            vision.system is None,
    {
        crate::vision::Vision {
            input: user_message(self.text),
            image: Message::Tool { content: image_data },
            system: None,
        }
    }
}

impl Imagen {
    /// The image that the command asks for, from the experimental image
    /// model.
    pub fn params(self) -> (image: ImageGen)
        ensures
            image.model == Model::FlashExpImage,
            is_user_text(image.input, self.text@),
            image.system is None,
    {
        ImageGen { model: Model::FlashExpImage, input: user_message(self.text), system: None }
    }
}

impl Vidgen {
    /// The video that the command asks for, from the video model.
    pub fn params(self) -> (video: VideoGen)
        ensures
            video.model == Model::Veo2,
            is_user_text(video.input, self.text@),
            video.system is None,
    {
        VideoGen { model: Model::Veo2, input: user_message(self.text), system: None }
    }
}

impl Tts {
    /// The speech that the command asks for, from the speech model, in the
    /// voice named.
    pub fn params(self) -> (speech: TtsGen)
        ensures
            speech.model == Model::Tts,
            is_user_text(speech.input, self.text@),
            speech.system is None,
            speech.voice@ == self.voice@,
    {
        TtsGen {
            model: Model::Tts,
            input: user_message(self.text),
            system: None,
            voice: self.voice,
        }
    }
}

} // verus!
