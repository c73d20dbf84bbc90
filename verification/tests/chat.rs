use gems::chat::ChatBuilder;
use gems::messages::Content;
use gems::messages::Message;
use gems::models::Model;

#[test]
fn test_build_with_required() {
    let chat = ChatBuilder::default()
        .model(Model::Flash20)
        .messages(vec![Message::User {
            content: Content::Text("Hello".into()),
            name: None,
        }])
        .build()
        .unwrap();

    assert_eq!(chat.model, Model::Flash20);
    assert_eq!(chat.messages.len(), 1);
    assert!(chat.system.is_none());
}

#[test]
fn test_build_with_system() {
    let user_message = Message::User {
        content: Content::Text("Hello".into()),
        name: None,
    };

    let system_message = Message::System {
        content: Content::Text("You're a helpful assistant.".into()),
        name: None,
    };

    let chat = ChatBuilder::default()
        .model(Model::Pro15)
        .messages(vec![user_message.clone()])
        .system(vec![system_message.clone()])
        .build()
        .unwrap();

    assert_eq!(chat.model, Model::Pro15);
    assert_eq!(chat.messages.len(), 1);
    assert_eq!(chat.system.as_ref().unwrap().len(), 1);
}

#[test]
fn test_build_empty_messages() {
    let result = ChatBuilder::default()
        .model(Model::Flash20)
        .messages(vec![])
        .build();

    assert!(result.is_ok());
    assert_eq!(result.unwrap().messages.len(), 0);
}

#[test]
fn test_build_no_model() {
    let result = ChatBuilder::default()
        .messages(vec![Message::User {
            content: Content::Text("Hello".into()),
            name: None,
        }])
        .build();

    assert!(result.is_ok());
}

#[test]
fn test_build_default_empty() {
    let chat = ChatBuilder::default().build().unwrap_or_default();

    assert_eq!(chat.messages.len(), 0);
    assert!(chat.system.is_none());
}

#[test]
fn test_build_clone() {
    let user_message = Message::User {
        content: Content::Text("Test".into()),
        name: Some("Tester".into()),
    };

    let chat = ChatBuilder::default()
        .model(Model::Flash20)
        .messages(vec![user_message.clone()])
        .build()
        .unwrap();

    let chat_clone = chat.clone();
    assert_eq!(chat_clone.messages[0], user_message);
    assert_eq!(chat_clone.model, chat.model);
}

#[test]
fn chat_builder_keeps_what_was_set_last() {
    let chat = ChatBuilder::default()
        .model(Model::Pro15)
        .model(Model::Flash15)
        .build()
        .unwrap();
    assert_eq!(chat.model, Model::Flash15);
}

#[test]
fn chat_builder_defaults_to_the_fast_model() {
    let chat = ChatBuilder::default().build().unwrap();
    assert_eq!(chat.model, Model::Flash20);
}
