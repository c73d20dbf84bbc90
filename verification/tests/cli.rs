use gems::cli::{
    user_message, Batch, Cli, Command, Count, Embed, Generate, Imagen, Info, List, Stream, Tts,
    Vidgen, Vision,
};
use gems::messages::{Content, Message};
use gems::models::Model;

fn user(text: &str) -> Message {
    Message::User {
        content: Content::Text(text.to_string()),
        name: None,
    }
}

#[test]
fn text_becomes_a_message_of_the_user() {
    assert_eq!(user_message("Hello".to_string()), user("Hello"));
}

#[test]
fn key_comes_from_the_arguments_first() {
    assert_eq!(
        Cli::api_key_or(Some("arg".to_string()), Some("env".to_string())),
        "arg"
    );
    assert_eq!(Cli::api_key_or(None, Some("env".to_string())), "env");
    assert_eq!(Cli::api_key_or(None, None), "");
}

#[test]
fn model_comes_from_the_arguments_first() {
    assert_eq!(
        Cli::model_or(Some("arg".to_string()), Some("env".to_string())),
        "arg"
    );
    assert_eq!(Cli::model_or(None, Some("env".to_string())), "env");
    assert_eq!(Cli::model_or(None, None), "gemini-2.0-flash");
}

fn text() -> String {
    "Write a story about a magic backpack.".to_string()
}

#[test]
fn commands_switch_the_client_to_the_model_they_need() {
    let needs = |cmd: Command| cmd.client_model();
    assert_eq!(needs(Command::Generate(Generate { text: text() })), None);
    assert_eq!(needs(Command::Stream(Stream { text: text() })), None);
    assert_eq!(needs(Command::Count(Count { text: text() })), None);
    assert_eq!(needs(Command::Info(Info {})), None);
    assert_eq!(needs(Command::List(List {})), None);
    assert_eq!(
        needs(Command::Vision(Vision {
            image: "cat.jpg".to_string(),
            text: text()
        })),
        None
    );
    assert_eq!(
        needs(Command::Embed(Embed { text: text() })),
        Some(Model::Embedding)
    );
    assert_eq!(
        needs(Command::Batch(Batch { texts: vec![] })),
        Some(Model::Embedding)
    );
    assert_eq!(
        needs(Command::Imagen(Imagen { text: text() })),
        Some(Model::FlashExpImage)
    );
    assert_eq!(
        needs(Command::Vidgen(Vidgen { text: text() })),
        Some(Model::Veo2)
    );
    assert_eq!(
        needs(Command::Tts(Tts {
            text: text(),
            voice: "Kore".to_string()
        })),
        Some(Model::Tts)
    );
}

#[test]
fn commands_that_make_media_write_a_file() {
    assert_eq!(
        Command::Imagen(Imagen { text: text() }).output_file(),
        Some("output.png")
    );
    assert_eq!(
        Command::Vidgen(Vidgen { text: text() }).output_file(),
        Some("output.mp4")
    );
    assert_eq!(
        Command::Tts(Tts {
            text: text(),
            voice: "Kore".to_string()
        })
        .output_file(),
        Some("output.pcm")
    );
    assert_eq!(Command::Generate(Generate { text: text() }).output_file(), None);
    assert_eq!(Command::List(List {}).output_file(), None);
}

#[test]
fn generate_asks_the_fast_model_with_one_message() {
    let chat = Generate { text: text() }.params();
    assert_eq!(chat.model, Model::Flash20);
    assert_eq!(chat.messages, vec![user(&text())]);
    assert!(chat.system.is_none());
}

#[test]
fn stream_asks_the_fast_model() {
    let stream = Stream { text: text() }.params();
    assert_eq!(stream.model, Model::Flash20);
    assert_eq!(stream.input, user(&text()));
    assert!(stream.system.is_none());
}

#[test]
fn count_asks_the_default_model() {
    let count = Count { text: text() }.params();
    assert_eq!(count.model, Model::Flash20);
    assert_eq!(count.input, user(&text()));
}

#[test]
fn embed_asks_the_embedding_model() {
    let embedding = Embed { text: text() }.params();
    assert_eq!(embedding.model, Model::Embedding);
    assert_eq!(embedding.input, user(&text()));
}

#[test]
fn batch_makes_a_message_of_each_text_in_order() {
    let batch = Batch {
        texts: vec!["one".to_string(), "two".to_string(), "three".to_string()],
    }
    .params();
    assert_eq!(batch.model, Model::Embedding);
    assert_eq!(batch.input, vec![user("one"), user("two"), user("three")]);
    assert!(Batch { texts: vec![] }.params().input.is_empty());
}

#[test]
fn info_asks_for_the_default_model() {
    assert_eq!(Info {}.params().model, Model::Flash20);
}

#[test]
fn vision_sends_the_image_as_the_message_of_a_tool() {
    let vision = Vision {
        image: "/path/to/image.jpg".to_string(),
        text: "What is this picture?".to_string(),
    }
    .params("aW1hZ2U=".to_string());
    assert_eq!(vision.input, user("What is this picture?"));
    assert_eq!(
        vision.image,
        Message::Tool {
            content: "aW1hZ2U=".to_string()
        }
    );
    assert!(vision.system.is_none());
}

#[test]
fn media_commands_ask_their_own_models() {
    let image = Imagen { text: text() }.params();
    assert_eq!(image.model, Model::FlashExpImage);
    assert_eq!(image.input, user(&text()));
    let video = Vidgen { text: text() }.params();
    assert_eq!(video.model, Model::Veo2);
    assert_eq!(video.input, user(&text()));
    let speech = Tts {
        text: text(),
        voice: "Puck".to_string(),
    }
    .params();
    assert_eq!(speech.model, Model::Tts);
    assert_eq!(speech.input, user(&text()));
    assert_eq!(speech.voice, "Puck");
}
