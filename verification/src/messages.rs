//! The messages that a caller hands to the API.

use crate::requests::{part_views, Part, PartView};
use vstd::prelude::*;

verus! {

/// The content of a message.
#[derive(Debug, Clone, PartialEq, Eq)]
pub enum Content {
    Text(String),
}

impl View for Content {
    type V = Seq<char>;

    open spec fn view(&self) -> Seq<char> {
        match self {
            Content::Text(text) => text@,
        }
    }
}

impl Default for Content {
    fn default() -> (content: Self)
        ensures
            content@ == Seq::<char>::empty(),
    {
        Content::Text(String::new())
    }
}

/// A message, by the role of who speaks.
#[derive(Debug, Clone, PartialEq, Eq)]
pub enum Message {
    User { content: Content, name: Option<String> },
    System { content: Content, name: Option<String> },
    Developer { content: Content, name: Option<String> },
    Tool { content: String },
}

impl Default for Message {
    fn default() -> (message: Self)
        ensures
            message is User,
            message.text() == Seq::<char>::empty(),
            message->User_name is None,
    {
        Message::User { content: Content::default(), name: None }
    }
}

impl Message {
    /// The text that the message holds, whoever speaks.
    pub open spec fn text(&self) -> Seq<char> {
        match self {
            Message::User { content, .. } => content@,
            Message::System { content, .. } => content@,
            Message::Developer { content, .. } => content@,
            Message::Tool { content } => content@,
        }
    }

    /// The text that the message holds.
    pub fn content_text(&self) -> (text: &String)
        ensures
            text@ == self.text(),
    {
        match self {
            Message::User { content, .. } => match content {
                Content::Text(text) => text,
            },
            Message::System { content, .. } => match content {
                Content::Text(text) => text,
            },
            Message::Developer { content, .. } => match content {
                Content::Text(text) => text,
            },
            Message::Tool { content } => content,
        }
    }

    /// The message as a part of a request: a text part that holds its text.
    pub fn to_part(&self) -> (part: Part)
        ensures
            part@ == (PartView::Text { text: self.text() }),
    {
        Part::text(self.content_text().as_str())
    }
}

/// The parts that a sequence of messages gives, one text part each.
pub open spec fn message_parts(messages: Seq<Message>) -> Seq<PartView> {
    messages.map_values(|message: Message| PartView::Text { text: message.text() })
}

/// The parts of `messages`, one text part each, in order.
pub fn to_parts(messages: &Vec<Message>) -> (parts: Vec<Part>)
    ensures
        part_views(parts@) == message_parts(messages@),
{
    let mut parts: Vec<Part> = Vec::new();
    let mut i: usize = 0;
    assert(part_views(parts@) =~= message_parts(messages@.take(0)));
    while i < messages.len()
        invariant
            i <= messages.len(),
            part_views(parts@) == message_parts(messages@.take(i as int)),
        decreases messages.len() - i,
    {
        let part = messages[i].to_part();
        let ghost before = part_views(parts@);
        parts.push(part);
        assert(part_views(parts@) =~= before.push(part@));
        assert(message_parts(messages@.take(i + 1)) =~= message_parts(
            messages@.take(i as int),
        ).push(part@));
        i += 1;
    }
    assert(messages@.take(messages.len() as int) =~= messages@);
    parts
}

} // verus!
