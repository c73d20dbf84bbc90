//! What a client offers.

use crate::chat::Chats;
use crate::client::{request_for, request_view, ClientView, Method, Request};
use crate::embed::Embeddings;
use crate::error::GemsError;
use crate::imagen::Images;
use crate::models::{Model, Models};
use crate::stream::Streaming;
use crate::tokens::Tokens;
use crate::tts::Tts;
use crate::vidgen::Videos;
use crate::vision::Visions;
use crate::text::text_view;
use vstd::prelude::*;

verus! {

pub trait CTrait {
    /// The configuration of the client.
    spec fn config(&self) -> ClientView;

    /// Sets the API key and nothing else.
    fn set_api_key(&mut self, api_key: String)
        ensures
            final(self).config() == (ClientView { api_key: Some(api_key@), ..old(self).config() }),
    ;

    /// The API key, where one is set.
    fn get_api_key(&self) -> (key: Option<String>)
        ensures
            text_view(key) == self.config().api_key,
    ;

    /// The selected model.
    fn get_model(&self) -> (model: Model)
        ensures
            model == self.config().model,
    ;

    /// Selects a model and changes nothing else.
    fn set_model(&mut self, model: Model)
        ensures
            final(self).config() == (ClientView { model, ..old(self).config() }),
    ;

    /// The request to make for `endpoint`: to the address of the endpoint
    /// for the selected model, with the API key and as JSON. Without an API
    /// key there is none to make, and none where endpoint and key are too
    /// long for an address or the address cannot be read as a URL.
    fn request(&self, method: Method, endpoint: &str) -> (request: Result<Request, GemsError>)
        ensures
            request_view(request) == request_for(self.config(), method, endpoint@),
    ;

    /// The chat service of this client.
    fn chat(&self) -> (service: Chats)
        ensures
            service.client@ == self.config(),
    ;

    /// The embedding service of this client.
    fn embeddings(&self) -> (service: Embeddings)
        ensures
            service.client@ == self.config(),
    ;

    /// The token-counting service of this client.
    fn tokens(&self) -> (service: Tokens)
        ensures
            service.client@ == self.config(),
    ;

    /// The vision service of this client.
    fn vision(&self) -> (service: Visions)
        ensures
            service.client@ == self.config(),
    ;

    /// The streaming service of this client.
    fn stream(&self) -> (service: Streaming)
        ensures
            service.client@ == self.config(),
    ;

    /// The model-information service of this client.
    fn models(&self) -> (service: Models)
        ensures
            service.client@ == self.config(),
    ;

    /// The image service of this client.
    fn images(&self) -> (service: Images)
        ensures
            service.client@ == self.config(),
    ;

    /// The video service of this client.
    fn videos(&self) -> (service: Videos)
        ensures
            service.client@ == self.config(),
    ;

    /// The speech service of this client.
    fn tts(&self) -> (service: Tts)
        ensures
            service.client@ == self.config(),
    ;
}

} // verus!
