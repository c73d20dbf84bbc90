use gems::error::GemsError;
use gems::models::{Mod, ModBuilder, Model, Models};
use gems::client::{Client, Method};
use gems::traits::CTrait;

const ALL: [(Model, &str); 12] = [
    (Model::Pro25Preview, "gemini-2.5-pro-preview-03-25"),
    (Model::Flash20, "gemini-2.0-flash"),
    (Model::Flash20Lite, "gemini-2.0-flash-lite"),
    (Model::Flash15, "gemini-1.5-flash"),
    (Model::Flash15_8B, "gemini-1.5-flash-8b"),
    (Model::Pro15, "gemini-1.5-pro"),
    (Model::Embedding, "text-embedding-004"),
    (Model::Imagen3, "imagen-3.0-generate-002"),
    (Model::Veo2, "veo-2.0-generate-001"),
    (Model::Tts, "gemini-2.5-flash-preview-tts"),
    (Model::Flash20Live, "gemini-2.0-flash-live-001"),
    (Model::FlashExpImage, "gemini-2.0-flash-exp-image-generation"),
];

#[test]
fn each_model_has_its_name() {
    for (model, name) in ALL {
        assert_eq!(model.to_string(), name);
        assert_eq!(model.as_str(), name);
    }
}

#[test]
fn each_name_is_read_back_as_its_model() {
    for (model, name) in ALL {
        if model != Model::FlashExpImage {
            assert_eq!(Model::from_str(name), Ok(model));
        }
    }
}

#[test]
fn name_of_the_experimental_image_model_is_read_as_the_live_model() {
    assert_eq!(
        Model::from_str("gemini-2.0-flash-exp-image-generation"),
        Ok(Model::Flash20Live)
    );
}

#[test]
fn unknown_name_is_an_error_that_holds_it() {
    assert_eq!(
        Model::from_str("embedding-001"),
        Err(GemsError::UnknownModel("embedding-001".to_string()))
    );
    assert_eq!(
        Model::from_str(""),
        Err(GemsError::UnknownModel(String::new()))
    );
    assert_eq!(
        Model::from_str("Gemini-2.0-Flash"),
        Err(GemsError::UnknownModel("Gemini-2.0-Flash".to_string()))
    );
    assert_eq!(
        Model::from_str("gemini-2.0-flash "),
        Err(GemsError::UnknownModel("gemini-2.0-flash ".to_string()))
    );
}

#[test]
fn default_model_is_the_fast_one() {
    assert_eq!(Model::default(), Model::Flash20);
    assert_eq!(Mod::default().model, Model::Flash20);
    assert_eq!(ModBuilder::default().build().unwrap().model, Model::Flash20);
    assert_eq!(
        ModBuilder::default()
            .model(Model::Veo2)
            .build()
            .unwrap()
            .model,
        Model::Veo2
    );
}

fn client_with_key() -> Client {
    let mut client = Client::builder().model("gemini-1.5-pro").build().unwrap();
    client.set_api_key("secret".to_string());
    client
}

#[test]
fn list_of_models_lives_at_the_base_address() {
    let models: Models = client_with_key().models();
    let request = models.list().unwrap();
    assert_eq!(request.method, Method::Get);
    assert_eq!(
        request.url,
        "https://generativelanguage.googleapis.com/v1beta/models?key=secret"
    );
}

#[test]
fn information_is_asked_for_the_model_of_the_client() {
    let models = client_with_key().models();
    let request = models
        .get(Mod {
            model: Model::Flash15,
        })
        .unwrap();
    assert_eq!(request.method, Method::Get);
    assert_eq!(
        request.url,
        "https://generativelanguage.googleapis.com/v1beta/models/gemini-1.5-pro?key=secret"
    );
}
