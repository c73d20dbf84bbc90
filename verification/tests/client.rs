use gems::chat::{Chat, Chats};
use gems::client::{
    is_addressable, make_address, plan_request, CBuilder, Client, Method, Request,
    GEMINI_BASE_URL, KEY_PARAMETER, MAX_ADDRESS_CHARS,
};
use gems::embed::{BatchEmbedding, Embedding, Embeddings};
use gems::error::GemsError;
use gems::imagen::{ImageGen, Images};
use gems::messages::{Content, Message};
use gems::models::Model;
use gems::stream::{Stream, Streaming};
use gems::tokens::{Token, Tokens};
use gems::traits::CTrait;
use gems::tts::{Tts, TtsGen};
use gems::vidgen::{VideoGen, Videos};
use gems::vision::{Vision, Visions};

#[test]
fn built_client_has_no_key_and_the_default_model() {
    let client = Client::builder().build().unwrap();
    assert_eq!(client.get_api_key(), None);
    assert_eq!(client.get_model(), Model::Flash20);
}

#[test]
fn builder_selects_the_model_that_is_named() {
    let client = Client::builder().model("veo-2.0-generate-001").build().unwrap();
    assert_eq!(client.get_model(), Model::Veo2);
}

#[test]
fn builder_falls_back_on_the_default_model_for_an_unknown_name() {
    let client = CBuilder::default()
        .model("veo-2.0-generate-001")
        .model("no such model")
        .build()
        .unwrap();
    assert_eq!(client.get_model(), Model::Flash20);
}

#[test]
fn builder_takes_a_base_url() {
    assert!(Client::builder()
        .base_url("http://localhost:8080/models")
        .model("gemini-1.5-flash")
        .build()
        .is_ok());
}

#[test]
fn key_and_model_can_be_set() {
    let mut client = Client::builder().build().unwrap();
    client.set_api_key("first".to_string());
    client.set_api_key("second".to_string());
    client.set_model(Model::Tts);
    assert_eq!(client.get_api_key(), Some("second".to_string()));
    assert_eq!(client.get_model(), Model::Tts);
}

#[test]
fn services_take_a_copy_of_the_configuration() {
    let mut client = Client::builder().build().unwrap();
    client.set_api_key("before".to_string());
    let chats = client.chat();
    client.set_api_key("after".to_string());
    client.set_model(Model::Pro15);
    assert_eq!(chats.client.get_api_key(), Some("before".to_string()));
    assert_eq!(chats.client.get_model(), Model::Flash20);
    assert_eq!(client.clone().get_api_key(), Some("after".to_string()));
}

#[test]
fn request_without_key_is_refused() {
    let client = Client::builder().build().unwrap();
    assert_eq!(
        client.request(Method::Post, "generateContent"),
        Err(GemsError::ApiKeyNotSet)
    );
    assert_eq!(client.request(Method::Get, "models"), Err(GemsError::ApiKeyNotSet));
}

#[test]
fn request_goes_to_the_endpoint_of_the_selected_model() {
    let mut client = Client::builder().model("gemini-1.5-flash").build().unwrap();
    client.set_api_key("k3y".to_string());
    assert_eq!(
        client.request(Method::Post, "generateContent"),
        Ok(Request {
            method: Method::Post,
            url: "https://generativelanguage.googleapis.com/v1beta/models/gemini-1.5-flash:generateContent?key=k3y"
                .to_string(),
            content_type: "application/json".to_string(),
        })
    );
}

#[test]
fn request_for_no_endpoint_goes_to_the_model() {
    let mut client = Client::builder().build().unwrap();
    client.set_api_key("k".to_string());
    assert_eq!(
        client.request(Method::Get, "").unwrap().url,
        format!("{}/gemini-2.0-flash?key=k", GEMINI_BASE_URL)
    );
}

#[test]
fn request_for_the_models_goes_to_the_base_address() {
    let mut client = Client::builder().build().unwrap();
    client.set_api_key("k".to_string());
    assert_eq!(
        client.request(Method::Get, "models").unwrap().url,
        format!("{}?key=k", GEMINI_BASE_URL)
    );
    assert_eq!(
        client.request(Method::Get, "models2").unwrap().url,
        format!("{}/gemini-2.0-flash:models2?key=k", GEMINI_BASE_URL)
    );
}

#[test]
fn key_is_encoded_into_the_query_of_the_address() {
    let mut client = Client::builder().build().unwrap();
    client.set_api_key("a b&c=d/é".to_string());
    assert_eq!(
        client.request(Method::Get, "models").unwrap().url,
        format!("{}?key=a+b%26c%3Dd%2F%C3%A9", GEMINI_BASE_URL)
    );
    client.set_api_key(String::new());
    assert_eq!(
        client.request(Method::Get, "models").unwrap().url,
        format!("{}?key=", GEMINI_BASE_URL)
    );
}

#[test]
fn endpoint_is_normalised_as_part_of_the_address() {
    let mut client = Client::builder().build().unwrap();
    client.set_api_key("k".to_string());
    assert_eq!(
        client.request(Method::Get, "a b?x=1#frag").unwrap().url,
        format!("{}/gemini-2.0-flash:a%20b?x=1&key=k#frag", GEMINI_BASE_URL)
    );
}

#[test]
fn address_is_made_with_any_parameter() {
    assert_eq!(
        make_address("https://example.net/a?x=1", "lang", "rust"),
        Some("https://example.net/a?x=1&lang=rust".to_string())
    );
    assert_eq!(
        make_address("https://example.net", KEY_PARAMETER, "k"),
        Some("https://example.net/?key=k".to_string())
    );
    assert_eq!(make_address("no scheme", "key", "k"), None);
    assert_eq!(KEY_PARAMETER, "key");
}

#[test]
fn texts_that_are_too_long_make_no_address() {
    assert_eq!(MAX_ADDRESS_CHARS, 16_777_216);
    let url = "https://example.net/";
    let most = MAX_ADDRESS_CHARS - url.len() - 3;
    let fits = "k".repeat(most);
    assert!(is_addressable(url, "key", &fits));
    assert_eq!(
        make_address(url, "key", &fits).map(|address| address.len()),
        Some(url.len() + 5 + most)
    );
    let long = "k".repeat(most + 1);
    assert!(!is_addressable(url, "key", &long));
    assert_eq!(make_address(url, "key", &long), None);
    assert!(is_addressable(&long, "", ""));
    assert!(!is_addressable("", &long, "kkkkkkkkkkkkkkkkkkkkkkkkk"));
    let over = "k".repeat(MAX_ADDRESS_CHARS + 1);
    assert!(!is_addressable(&over, "", ""));
    assert!(!is_addressable("", "", &over));
    assert!(is_addressable("", "", &over[1..]));
    let wide = "é".repeat(most);
    assert!(is_addressable(url, "key", &wide));
}

#[test]
fn request_with_a_key_that_is_too_long_is_refused() {
    let mut client = Client::builder().build().unwrap();
    client.set_api_key("k".repeat(MAX_ADDRESS_CHARS));
    assert_eq!(
        client.request(Method::Get, "models"),
        Err(GemsError::InvalidAddress(GEMINI_BASE_URL.to_string()))
    );
    assert_eq!(
        client.request(Method::Post, "generateContent"),
        Err(GemsError::InvalidAddress(format!(
            "{}/gemini-2.0-flash:generateContent",
            GEMINI_BASE_URL
        )))
    );
    let endpoint = "e".repeat(MAX_ADDRESS_CHARS);
    client.set_api_key("k".to_string());
    assert_eq!(
        client.request(Method::Get, &endpoint),
        Err(GemsError::InvalidAddress(format!(
            "{}/gemini-2.0-flash:{}",
            GEMINI_BASE_URL, endpoint
        )))
    );
}

#[test]
fn request_is_planned_from_the_address_that_was_made() {
    assert_eq!(
        plan_request(
            Method::Post,
            "https://example.net".to_string(),
            Some("https://example.net/?key=k".to_string())
        ),
        Ok(Request {
            method: Method::Post,
            url: "https://example.net/?key=k".to_string(),
            content_type: "application/json".to_string(),
        })
    );
    assert_eq!(
        plan_request(Method::Get, "not an address".to_string(), None),
        Err(GemsError::InvalidAddress("not an address".to_string()))
    );
}

fn user(text: &str) -> Message {
    Message::User {
        content: Content::Text(text.to_string()),
        name: None,
    }
}

#[test]
fn every_service_asks_for_its_own_endpoint() {
    let mut client = Client::builder().build().unwrap();
    client.set_api_key("k".to_string());
    let base = format!("{}/gemini-2.0-flash:", GEMINI_BASE_URL);

    let chat = client.chat().generate(Chat::default()).unwrap();
    assert_eq!(chat.request.url, format!("{}generateContent?key=k", base));
    assert_eq!(chat.request.method, Method::Post);
    assert_eq!(chat.request.content_type, "application/json");
    assert_eq!(chat.body, Chats::generate_body(&Chat::default()));

    let vision = Vision {
        input: user("What is this picture?"),
        image: user("aW1hZ2U="),
        system: None,
    };
    let call = client.vision().generate(vision.clone()).unwrap();
    assert_eq!(call.request.url, format!("{}generateContent?key=k", base));
    assert_eq!(call.body, Visions::generate_body(&vision));

    let image = ImageGen {
        model: Model::FlashExpImage,
        input: user("A cat"),
        system: None,
    };
    let call = client.images().generate(image.clone()).unwrap();
    assert_eq!(call.request.url, format!("{}generateContent?key=k", base));
    assert_eq!(call.body, Images::generate_body(&image));

    let speech = TtsGen {
        model: Model::Tts,
        input: user("Say hello"),
        system: None,
        voice: "Kore".to_string(),
    };
    let call = client.tts().generate(speech.clone()).unwrap();
    assert_eq!(call.request.url, format!("{}generateContent?key=k", base));
    assert_eq!(call.body, Tts::generate_body(&speech).unwrap());

    let stream = Stream {
        model: Model::Flash20,
        input: user("Tell a story"),
        system: None,
    };
    let call = client.stream().generate(stream.clone()).unwrap();
    assert_eq!(call.request.url, format!("{}streamGenerateContent?key=k", base));
    assert_eq!(call.body, Streaming::generate_body(&stream));

    let call = client.tokens().count(Token::default()).unwrap();
    assert_eq!(call.request.url, format!("{}countTokens?key=k", base));
    assert_eq!(call.body, Tokens::count_body(&Token::default()));

    let call = client.embeddings().create(Embedding::default()).unwrap();
    assert_eq!(call.request.url, format!("{}embedContent?key=k", base));
    assert_eq!(call.body, Embeddings::create_body(&Embedding::default()));

    let batch = BatchEmbedding {
        model: Model::Embedding,
        input: vec![user("one"), user("two")],
    };
    let call = client.embeddings().batch(batch.clone()).unwrap();
    assert_eq!(call.request.url, format!("{}batchEmbedContents?key=k", base));
    assert_eq!(call.body, Embeddings::batch_body(&batch));

    let video = VideoGen {
        model: Model::Veo2,
        input: user("A puppy"),
        system: None,
    };
    let call = client.videos().generate(video.clone()).unwrap();
    assert_eq!(call.request.url, format!("{}predictLongRunning?key=k", base));
    assert_eq!(call.request.method, Method::Post);
    assert_eq!(call.body, Videos::generate_body(&video).unwrap());

    let poll = client.videos().poll("operations/abc").unwrap();
    assert_eq!(poll.url, format!("{}operations/abc?key=k", base));
    assert_eq!(poll.method, Method::Get);
}

#[test]
fn no_service_has_anything_to_send_without_a_key() {
    let client = Client::builder().build().unwrap();
    assert_eq!(
        client.chat().generate(Chat::default()),
        Err(GemsError::ApiKeyNotSet)
    );
    assert_eq!(
        client.tokens().count(Token::default()),
        Err(GemsError::ApiKeyNotSet)
    );
    assert_eq!(
        client.embeddings().create(Embedding::default()),
        Err(GemsError::ApiKeyNotSet)
    );
    assert_eq!(
        client.embeddings().batch(BatchEmbedding::default()),
        Err(GemsError::ApiKeyNotSet)
    );
    assert_eq!(
        client.videos().generate(VideoGen {
            model: Model::Veo2,
            input: user("A puppy"),
            system: None,
        }),
        Err(GemsError::ApiKeyNotSet)
    );
    assert_eq!(client.videos().poll("op"), Err(GemsError::ApiKeyNotSet));
    assert_eq!(client.models().list(), Err(GemsError::ApiKeyNotSet));
}
