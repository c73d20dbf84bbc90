//! The bodies of the answers of the API, as far as the library reads them.

use crate::requests::Candidate;
use vstd::prelude::*;

verus! {

/// The answer to a request for generated text.
#[derive(Debug, Clone, PartialEq, Eq)]
pub struct GeminiResponse {
    pub candidates: Option<Vec<Candidate>>,
}

/// Data that an answer carries inline: its MIME type and the data as base64
/// text.
#[derive(Debug, Clone, PartialEq, Eq)]
pub struct InlineData {
    pub mime_type: String,
    pub data: String,
}

/// One part of the content of an answer: text, or inline data.
#[derive(Debug, Clone, PartialEq, Eq)]
pub enum Part {
    Text { text: String },
    Image { inline_data: InlineData },
}

impl Part {
    /// The base64 text of the part, where it carries inline data.
    pub open spec fn data(&self) -> Option<Seq<char>> {
        match self {
            Part::Image { inline_data } => Some(inline_data.data@),
            Part::Text { .. } => None,
        }
    }
}

/// The content of a candidate that may carry inline data.
#[derive(Debug, Clone, PartialEq, Eq)]
pub struct MediaContent {
    pub parts: Vec<Part>,
}

/// A candidate that may carry inline data.
#[derive(Debug, Clone, PartialEq, Eq)]
pub struct MediaCandidate {
    pub content: MediaContent,
}

/// The answer to a request for an image.
#[derive(Debug, Clone, PartialEq, Eq)]
pub struct ImagenResponse {
    pub candidates: Option<Vec<MediaCandidate>>,
}

/// The answer to a request for speech.
#[derive(Debug, Clone, PartialEq, Eq)]
pub struct TtsResponse {
    pub candidates: Option<Vec<MediaCandidate>>,
}

/// The base64 text of the first part of `parts`, at or after `from`, that
/// carries inline data.
pub open spec fn first_data(parts: Seq<Part>, from: int) -> Option<Seq<char>>
    decreases parts.len() - from,
{
    if from < 0 || from >= parts.len() {
        None
    } else if parts[from] is Image {
        parts[from].data()
    } else {
        first_data(parts, from + 1)
    }
}

/// The base64 text of the first part that carries inline data.
pub fn find_data(parts: &Vec<Part>) -> (found: Option<&String>)
    ensures
        match found {
            Some(text) => first_data(parts@, 0) == Some(text@),
            None => first_data(parts@, 0) is None,
        },
{
    let mut i: usize = 0;
    while i < parts.len()
        invariant
            i <= parts.len(),
            first_data(parts@, 0) == first_data(parts@, i as int),
        decreases parts.len() - i,
    {
        match &parts[i] {
            Part::Image { inline_data } => {
                return Some(&inline_data.data);
            },
            Part::Text { .. } => {},
        }
        i += 1;
    }
    None
}

} // verus!
