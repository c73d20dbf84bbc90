use gems::error::{DecodeFailure, GemsError};
use gems::imagen::{ImageGen, ImageGenBuilder, Images};
use gems::messages::{Content, Message};
use gems::models::Model;
use gems::requests::Part;
use gems::responses::{ImagenResponse, InlineData, MediaCandidate, MediaContent};

#[test]
fn test_imagegen_build_required() {
    let user_msg = Message::User {
        content: Content::Text("A cat sitting on a beach".into()),
        name: None,
    };

    let imagegen = ImageGenBuilder::default()
        .model(Model::FlashExpImage)
        .input(user_msg.clone())
        .build()
        .unwrap();

    assert_eq!(imagegen.model, Model::FlashExpImage);
    assert_eq!(imagegen.input, user_msg);
    assert!(imagegen.system.is_none());
}

#[test]
fn test_imagegen_build_with_system() {
    let user_msg = Message::User {
        content: Content::Text("A futuristic cityscape".into()),
        name: None,
    };

    let system_msg = Message::System {
        content: Content::Text("Only respond with image content.".into()),
        name: None,
    };

    let imagegen = ImageGenBuilder::default()
        .model(Model::FlashExpImage)
        .input(user_msg.clone())
        .system(vec![system_msg.clone()])
        .build()
        .unwrap();

    assert_eq!(imagegen.model, Model::FlashExpImage);
    assert_eq!(imagegen.input, user_msg);
    assert_eq!(imagegen.system.unwrap().len(), 1);
}

#[test]
fn imagegen_builder_names_the_first_missing_field() {
    let user_msg = Message::User {
        content: Content::Text("A sunset over a mountain range".into()),
        name: None,
    };
    assert_eq!(
        ImageGenBuilder::default().build().unwrap_err(),
        GemsError::UninitializedField("model".to_string())
    );
    assert_eq!(
        ImageGenBuilder::default()
            .input(user_msg)
            .build()
            .unwrap_err(),
        GemsError::UninitializedField("model".to_string())
    );
    assert_eq!(
        ImageGenBuilder::default()
            .model(Model::Imagen3)
            .build()
            .unwrap_err(),
        GemsError::UninitializedField("input".to_string())
    );
}

fn image_params() -> ImageGen {
    ImageGen {
        model: Model::FlashExpImage,
        input: Message::User {
            content: Content::Text("A robot reading a book in a library".into()),
            name: None,
        },
        system: Some(vec![Message::System {
            content: Content::Text("Use high-detail, photorealistic rendering.".into()),
            name: None,
        }]),
    }
}

#[test]
fn image_body_asks_for_text_and_image() {
    let body = Images::generate_body(&image_params());
    assert_eq!(body.model, "gemini-2.0-flash-exp-image-generation");
    assert_eq!(body.contents.len(), 1);
    assert_eq!(
        body.contents[0].parts,
        vec![Part::Text {
            text: "A robot reading a book in a library".to_string()
        }]
    );
    assert_eq!(
        body.system_instruction.unwrap().parts,
        vec![Part::Text {
            text: "Use high-detail, photorealistic rendering.".to_string()
        }]
    );
    assert_eq!(
        body.config.unwrap().response_modalities,
        vec!["Text".to_string(), "Image".to_string()]
    );
}

fn answer(parts: Vec<gems::responses::Part>) -> ImagenResponse {
    ImagenResponse {
        candidates: Some(vec![MediaCandidate {
            content: MediaContent { parts },
        }]),
    }
}

fn inline(data: &str) -> gems::responses::Part {
    gems::responses::Part::Image {
        inline_data: InlineData {
            mime_type: "image/png".to_string(),
            data: data.to_string(),
        },
    }
}

#[test]
fn image_result_decodes_the_first_inline_data() {
    let response = answer(vec![
        gems::responses::Part::Text {
            text: "Here is your image".to_string(),
        },
        inline("iVBORw=="),
        inline("AAAA"),
    ]);
    assert_eq!(
        Images::generate_result(&response),
        Ok(vec![0x89, 0x50, 0x4e, 0x47])
    );
}

#[test]
fn image_result_reports_what_is_missing() {
    assert_eq!(
        Images::generate_result(&ImagenResponse { candidates: None }),
        Err(GemsError::MissingCandidates)
    );
    assert_eq!(
        Images::generate_result(&ImagenResponse {
            candidates: Some(vec![])
        }),
        Err(GemsError::NoCandidate)
    );
    assert_eq!(
        Images::generate_result(&answer(vec![gems::responses::Part::Text {
            text: "no image".to_string()
        }])),
        Err(GemsError::NoImage)
    );
}

#[test]
fn image_result_reports_data_that_is_not_base64() {
    assert_eq!(
        Images::generate_result(&answer(vec![inline("iVBO*w==")])),
        Err(GemsError::PayloadDecode(DecodeFailure::InvalidByte(4, b'*')))
    );
}
