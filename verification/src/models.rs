//! The models of the API and their names.

use crate::client::{request_for, request_view, Client, Method, Request};
use crate::traits::CTrait;
use crate::error::{GemsError, GemsErrorView};
use crate::text::{chars_of, same_chars};
use vstd::prelude::*;

verus! {

/// A model of the API.
#[allow(non_camel_case_types)]
#[derive(Debug, Clone, Copy, PartialEq, Eq, Structural)]
pub enum Model {
    Pro25Preview,
    Flash20,
    Flash20Lite,
    Flash15,
    Flash15_8B,
    Pro15,
    Embedding,
    Imagen3,
    Veo2,
    Tts,
    Flash20Live,
    FlashExpImage,
}

impl Default for Model {
    fn default() -> (model: Self)
        ensures
            model == Model::Flash20,
    {
        Model::Flash20
    }
}

impl Model {
    /// The name under which the API knows the model.
    pub open spec fn name(self) -> Seq<char> {
        match self {
            Model::Pro25Preview => "gemini-2.5-pro-preview-03-25"@,
            Model::Flash20 => "gemini-2.0-flash"@,
            Model::Flash20Lite => "gemini-2.0-flash-lite"@,
            Model::Flash15 => "gemini-1.5-flash"@,
            Model::Flash15_8B => "gemini-1.5-flash-8b"@,
            Model::Pro15 => "gemini-1.5-pro"@,
            Model::Embedding => "text-embedding-004"@,
            Model::Imagen3 => "imagen-3.0-generate-002"@,
            Model::Veo2 => "veo-2.0-generate-001"@,
            Model::Tts => "gemini-2.5-flash-preview-tts"@,
            Model::Flash20Live => "gemini-2.0-flash-live-001"@,
            Model::FlashExpImage => "gemini-2.0-flash-exp-image-generation"@,
        }
    }

    /// The model that a name is read as. Every model is read back from its
    /// own name but the experimental image model, whose name is read as the
    /// live model.
    pub open spec fn named(name: Seq<char>) -> Option<Model> {
        if name == Model::Pro25Preview.name() {
            Some(Model::Pro25Preview)
        } else if name == Model::Flash20.name() {
            Some(Model::Flash20)
        } else if name == Model::Flash20Lite.name() {
            Some(Model::Flash20Lite)
        } else if name == Model::Flash15.name() {
            Some(Model::Flash15)
        } else if name == Model::Flash15_8B.name() {
            Some(Model::Flash15_8B)
        } else if name == Model::Pro15.name() {
            Some(Model::Pro15)
        } else if name == Model::Embedding.name() {
            Some(Model::Embedding)
        } else if name == Model::Imagen3.name() {
            Some(Model::Imagen3)
        } else if name == Model::Veo2.name() {
            Some(Model::Veo2)
        } else if name == Model::Tts.name() {
            Some(Model::Tts)
        } else if name == Model::Flash20Live.name() {
            Some(Model::Flash20Live)
        } else if name == Model::FlashExpImage.name() {
            Some(Model::Flash20Live)
        } else {
            None
        }
    }

    /// The name under which the API knows the model, as a static string.
    pub fn as_str(&self) -> (name: &'static str)
        ensures
            name@ == self.name(),
    {
        match self {
            Model::Pro25Preview => "gemini-2.5-pro-preview-03-25",
            Model::Flash20 => "gemini-2.0-flash",
            Model::Flash20Lite => "gemini-2.0-flash-lite",
            Model::Flash15 => "gemini-1.5-flash",
            Model::Flash15_8B => "gemini-1.5-flash-8b",
            Model::Pro15 => "gemini-1.5-pro",
            Model::Embedding => "text-embedding-004",
            Model::Imagen3 => "imagen-3.0-generate-002",
            Model::Veo2 => "veo-2.0-generate-001",
            Model::Tts => "gemini-2.5-flash-preview-tts",
            Model::Flash20Live => "gemini-2.0-flash-live-001",
            Model::FlashExpImage => "gemini-2.0-flash-exp-image-generation",
        }
    }

    /// The name under which the API knows the model.
    pub fn to_string(&self) -> (name: String)
        ensures
            name@ == self.name(),
    {
        self.as_str().to_owned()
    }

    /// The model that `s` names, or an error that holds `s` where it names
    /// none.
    pub fn from_str(s: &str) -> (model: Result<Model, GemsError>)
        ensures
            match model {
                Ok(found) => Model::named(s@) == Some(found),
                Err(error) => Model::named(s@) is None && error@ == GemsErrorView::UnknownModel(
                    s@,
                ),
            },
    {
        let name = chars_of(s);
        if same_chars(&name, &chars_of(Model::Pro25Preview.as_str())) {
            Ok(Model::Pro25Preview)
        } else if same_chars(&name, &chars_of(Model::Flash20.as_str())) {
            Ok(Model::Flash20)
        } else if same_chars(&name, &chars_of(Model::Flash20Lite.as_str())) {
            Ok(Model::Flash20Lite)
        } else if same_chars(&name, &chars_of(Model::Flash15.as_str())) {
            Ok(Model::Flash15)
        } else if same_chars(&name, &chars_of(Model::Flash15_8B.as_str())) {
            Ok(Model::Flash15_8B)
        } else if same_chars(&name, &chars_of(Model::Pro15.as_str())) {
            Ok(Model::Pro15)
        } else if same_chars(&name, &chars_of(Model::Embedding.as_str())) {
            Ok(Model::Embedding)
        } else if same_chars(&name, &chars_of(Model::Imagen3.as_str())) {
            Ok(Model::Imagen3)
        } else if same_chars(&name, &chars_of(Model::Veo2.as_str())) {
            Ok(Model::Veo2)
        } else if same_chars(&name, &chars_of(Model::Tts.as_str())) {
            Ok(Model::Tts)
        } else if same_chars(&name, &chars_of(Model::Flash20Live.as_str())) {
            Ok(Model::Flash20Live)
        } else if same_chars(&name, &chars_of(Model::FlashExpImage.as_str())) {
            Ok(Model::Flash20Live)
        } else {
            Err(GemsError::UnknownModel(s.to_owned()))
        }
    }
}

/// No two models share a name.
pub proof fn lemma_names_are_distinct(a: Model, b: Model)
    requires
        a != b,
    ensures
        a.name() != b.name(),
{
    reveal_strlit("gemini-2.5-pro-preview-03-25");
    reveal_strlit("gemini-2.0-flash");
    reveal_strlit("gemini-2.0-flash-lite");
    reveal_strlit("gemini-1.5-flash");
    reveal_strlit("gemini-1.5-flash-8b");
    reveal_strlit("gemini-1.5-pro");
    reveal_strlit("text-embedding-004");
    reveal_strlit("imagen-3.0-generate-002");
    reveal_strlit("veo-2.0-generate-001");
    reveal_strlit("gemini-2.5-flash-preview-tts");
    reveal_strlit("gemini-2.0-flash-live-001");
    reveal_strlit("gemini-2.0-flash-exp-image-generation");
    assert(a.name().len() != b.name().len() || a.name()[7] != b.name()[7] || a.name()[11]
        != b.name()[11]);
}

/// A model is read back from its own name, but for the experimental image
/// model, whose name is read as the live model.
pub proof fn lemma_name_is_read_back(model: Model)
    ensures
        Model::named(model.name()) == if model == Model::FlashExpImage {
            Some(Model::Flash20Live)
        } else {
            Some(model)
        },
{
    if model != Model::Pro25Preview {
        lemma_names_are_distinct(model, Model::Pro25Preview);
    }
    if model != Model::Flash20 {
        lemma_names_are_distinct(model, Model::Flash20);
    }
    if model != Model::Flash20Lite {
        lemma_names_are_distinct(model, Model::Flash20Lite);
    }
    if model != Model::Flash15 {
        lemma_names_are_distinct(model, Model::Flash15);
    }
    if model != Model::Flash15_8B {
        lemma_names_are_distinct(model, Model::Flash15_8B);
    }
    if model != Model::Pro15 {
        lemma_names_are_distinct(model, Model::Pro15);
    }
    if model != Model::Embedding {
        lemma_names_are_distinct(model, Model::Embedding);
    }
    if model != Model::Imagen3 {
        lemma_names_are_distinct(model, Model::Imagen3);
    }
    if model != Model::Veo2 {
        lemma_names_are_distinct(model, Model::Veo2);
    }
    if model != Model::Tts {
        lemma_names_are_distinct(model, Model::Tts);
    }
    if model != Model::Flash20Live {
        lemma_names_are_distinct(model, Model::Flash20Live);
    }
}

/// The model-information service of a client.
pub struct Models {
    pub client: Client,
}

impl Models {
    /// The request that lists the models.
    pub fn list(&self) -> (request: Result<Request, GemsError>)
        ensures
            request_view(request) == request_for(self.client@, Method::Get, "models"@),
    {
        self.client.request(Method::Get, "models")
    }

    /// The request for information on the model that the client has
    /// selected, whatever model the parameters name.
    pub fn get(&self, _model: Mod) -> (request: Result<Request, GemsError>)
        ensures
            request_view(request) == request_for(self.client@, Method::Get, Seq::empty()),
    {
        let request = self.client.request(Method::Get, "");
        proof {
            reveal_strlit("");
            assert(""@ =~= Seq::<char>::empty());
        }
        request
    }
}

/// The parameters of a request for information on a model.
#[derive(Debug, Clone, Copy, PartialEq, Eq, Structural)]
pub struct Mod {
    pub model: Model,
}

impl Default for Mod {
    fn default() -> (params: Self)
        ensures
            params.model == Model::Flash20,
    {
        Mod { model: Model::Flash20 }
    }
}

/// A builder of the parameters of a request for information on a model.
#[derive(Debug, Clone)]
pub struct ModBuilder {
    pub model: Option<Model>,
}

impl Default for ModBuilder {
    fn default() -> (builder: Self)
        ensures
            builder.model is None,
    {
        ModBuilder { model: None }
    }
}

impl ModBuilder {
    /// Sets the model.
    pub fn model(self, model: Model) -> (builder: Self)
        ensures
            builder == (ModBuilder { model: Some(model), ..self }),
    {
        ModBuilder { model: Some(model) }
    }

    /// The parameters: each field as it was set, or its default. Building
    /// never fails.
    pub fn build(self) -> (built: Result<Mod, GemsError>)
        ensures
            built matches Ok(value) && {
                &&& value.model == match self.model {
                    Some(model) => model,
                    None => Model::Flash20,
                }
            },
    {
        let model = match self.model {
            Some(model) => model,
            None => Model::default(),
        };
        Ok(Mod { model })
    }
}

} // verus!
