//! The client configuration: the API key, the selected model and the base
//! URL. It holds no connection: it says which request to make, and callers
//! that share one configuration only read it.

use crate::chat::Chats;
use crate::embed::Embeddings;
use crate::error::{GemsError, GemsErrorView};
use crate::imagen::Images;
use crate::models::{Model, Models};
use crate::stream::Streaming;
use crate::text::{str_equal, text_view};
use crate::tokens::Tokens;
use crate::traits::CTrait;
use crate::tts::Tts;
use crate::vidgen::Videos;
use crate::vision::Visions;
use reqwest::Url;
use vstd::prelude::*;
use vstd::string::{StrSliceExecFns, StringExecFns};

verus! {

/// The address under which the models of the API are found.
pub const GEMINI_BASE_URL: &'static str = "https://generativelanguage.googleapis.com/v1beta/models";

/// The method of a request.
#[derive(Debug, Clone, Copy, PartialEq, Eq, Structural)]
pub enum Method {
    Get,
    Post,
}

/// A request to make: where to send it, the API key included, how, and with
/// which content type.
#[derive(Debug, Clone, PartialEq, Eq)]
pub struct Request {
    pub method: Method,
    pub url: String,
    pub content_type: String,
}

/// The mathematical value of a `Request`.
pub struct RequestView {
    pub method: Method,
    pub url: Seq<char>,
    pub content_type: Seq<char>,
}

impl View for Request {
    type V = RequestView;

    open spec fn view(&self) -> RequestView {
        RequestView { method: self.method, url: self.url@, content_type: self.content_type@ }
    }
}

/// What to send for one call of the API: the request and its body.
#[derive(Debug, Clone, PartialEq, Eq)]
pub struct Call<B> {
    pub request: Request,
    pub body: B,
}

/// The address of `endpoint` for `model`: the list of models lives at the
/// base address, a model under its name, and an endpoint of a model behind
/// a colon after that name.
pub open spec fn endpoint_url(model: Model, endpoint: Seq<char>) -> Seq<char> {
    if endpoint == "models"@ {
        GEMINI_BASE_URL@
    } else if endpoint.len() == 0 {
        GEMINI_BASE_URL@ + "/"@ + model.name()
    } else {
        GEMINI_BASE_URL@ + "/"@ + model.name() + ":"@ + endpoint
    }
}

/// The name of the query parameter that carries the API key.
pub const KEY_PARAMETER: &'static str = "key";

/// The most characters that an address, the name of a parameter and its
/// value may hold together for an address to be made of them.
pub const MAX_ADDRESS_CHARS: usize = 0x0100_0000;

/// Whether an address, the name of a parameter and its value are short enough
/// for an address to be made of them.
pub open spec fn addressable(url: Seq<char>, name: Seq<char>, value: Seq<char>) -> bool {
    url.len() + name.len() + value.len() <= MAX_ADDRESS_CHARS
}

/// The address that the `url` crate makes of `url` with the parameter `name`
/// of value `value` added to its query, where `url` can be read as an
/// absolute URL.
pub uninterp spec fn address_with_param(
    url: Seq<char>,
    name: Seq<char>,
    value: Seq<char>,
) -> Option<Seq<char>>;

/// `Url::parse_with_params` with one parameter, and the parsed URL as a
/// string: the result depends on the three texts alone, and is what
/// `address_with_param` names. It is nothing where the URL cannot be parsed.
/// The call panics where the address it builds is longer than a `u32` can
/// count, so texts that are not short enough are left out.
#[verifier::external_body]
pub(crate) fn parse_with_param(url: &str, name: &str, value: &str) -> (address: Option<String>)
    requires
        addressable(url@, name@, value@),
    ensures
        text_view(address) == address_with_param(url@, name@, value@),
{
    match Url::parse_with_params(url, &[(name, value)]) {
        Ok(parsed) => Some(String::from(parsed)),
        Err(_) => None,
    }
}

/// Whether an address, the name of a parameter and its value are short enough
/// for an address to be made of them.
pub fn is_addressable(url: &str, name: &str, value: &str) -> (fits: bool)
    ensures
        fits == addressable(url@, name@, value@),
{
    let url_len = url.unicode_len();
    let name_len = name.unicode_len();
    let value_len = value.unicode_len();
    if url_len > MAX_ADDRESS_CHARS || name_len > MAX_ADDRESS_CHARS || value_len
        > MAX_ADDRESS_CHARS {
        false
    } else {
        url_len + name_len <= MAX_ADDRESS_CHARS && url_len + name_len + value_len
            <= MAX_ADDRESS_CHARS
    }
}

/// The address of `url` with the parameter `name` of value `value`, where the
/// three are short enough and `url` can be read as an absolute URL.
pub open spec fn address_of(url: Seq<char>, name: Seq<char>, value: Seq<char>) -> Option<
    Seq<char>,
> {
    if addressable(url, name, value) {
        address_with_param(url, name, value)
    } else {
        None
    }
}

/// The address of `url` with the parameter `name` of value `value`. It is
/// nothing where the three are too long for an address to be made of them,
/// and where `url` cannot be read as an absolute URL.
pub fn make_address(url: &str, name: &str, value: &str) -> (address: Option<String>)
    ensures
        text_view(address) == address_of(url@, name@, value@),
{
    if is_addressable(url, name, value) {
        parse_with_param(url, name, value)
    } else {
        None
    }
}

/// The request to `url`, given the address that was made of it with the API
/// key: a request to that address, as JSON, or an error that holds `url`
/// where no address could be made of it.
pub open spec fn request_to(method: Method, url: Seq<char>, address: Option<Seq<char>>) -> Result<
    RequestView,
    GemsErrorView,
> {
    match address {
        Some(made) => Ok(RequestView { method, url: made, content_type: "application/json"@ }),
        None => Err(GemsErrorView::InvalidAddress(url)),
    }
}

/// The request that a client with configuration `client` makes for
/// `endpoint`: to the address of the endpoint for the selected model, with
/// the API key as its `key` parameter, and as JSON. Without an API key there
/// is none to make, and none where no address can be made: where endpoint
/// and key are too long, or the address of the endpoint cannot be read as
/// an absolute URL.
pub open spec fn request_for(client: ClientView, method: Method, endpoint: Seq<char>) -> Result<
    RequestView,
    GemsErrorView,
> {
    match client.api_key {
        Some(key) => request_to(
            method,
            endpoint_url(client.model, endpoint),
            address_of(endpoint_url(client.model, endpoint), KEY_PARAMETER@, key),
        ),
        None => Err(GemsErrorView::ApiKeyNotSet),
    }
}

/// The request to `url`, given the address that was made of it with the API
/// key.
pub fn plan_request(method: Method, url: String, address: Option<String>) -> (request: Result<
    Request,
    GemsError,
>)
    ensures
        request_view(request) == request_to(method, url@, text_view(address)),
{
    match address {
        Some(made) => Ok(
            Request { method, url: made, content_type: "application/json".to_owned() },
        ),
        None => Err(GemsError::InvalidAddress(url)),
    }
}

/// The view of a request or the error in its place.
pub open spec fn request_view(request: Result<Request, GemsError>) -> Result<
    RequestView,
    GemsErrorView,
> {
    match request {
        Ok(made) => Ok(made@),
        Err(error) => Err(error@),
    }
}

/// The mathematical value of a `Client`.
pub struct ClientView {
    pub api_key: Option<Seq<char>>,
    pub model: Model,
    pub base_url: Seq<char>,
}

/// The configuration of a client.
#[derive(Debug)]
pub struct Client {
    api_key: Option<String>,
    model: Model,
    base_url: String,
}

impl View for Client {
    type V = ClientView;

    closed spec fn view(&self) -> ClientView {
        ClientView { api_key: text_view(self.api_key), model: self.model, base_url: self.base_url@ }
    }
}

impl Clone for Client {
    fn clone(&self) -> (copy: Self)
        ensures
            copy@ == self@,
    {
        Client {
            api_key: match &self.api_key {
                Some(key) => Some(key.clone()),
                None => None,
            },
            model: self.model,
            base_url: self.base_url.clone(),
        }
    }
}

impl Client {
    /// A builder with nothing set.
    pub fn builder() -> (builder: CBuilder)
        ensures
            builder@ == (CBuilderView { model: None, base_url: None }),
    {
        CBuilder::default()
    }
}

impl CTrait for Client {
    open spec fn config(&self) -> ClientView {
        self@
    }

    fn set_api_key(&mut self, api_key: String) {
        self.api_key = Some(api_key);
    }

    fn get_api_key(&self) -> (key: Option<String>) {
        match &self.api_key {
            Some(key) => Some(key.clone()),
            None => None,
        }
    }

    fn get_model(&self) -> (model: Model) {
        self.model
    }

    fn set_model(&mut self, model: Model) {
        self.model = model;
    }

    fn request(&self, method: Method, endpoint: &str) -> (request: Result<Request, GemsError>) {
        let key = match self.get_api_key() {
            Some(key) => key,
            None => {
                return Err(GemsError::ApiKeyNotSet);
            },
        };
        let url = if str_equal(endpoint, "models") {
            GEMINI_BASE_URL.to_owned()
        } else if endpoint.is_empty() {
            GEMINI_BASE_URL.to_owned().concat("/").concat(self.model.as_str())
        } else {
            GEMINI_BASE_URL.to_owned().concat("/").concat(self.model.as_str()).concat(":").concat(
                endpoint,
            )
        };
        let address = make_address(url.as_str(), KEY_PARAMETER, key.as_str());
        plan_request(method, url, address)
    }

    fn chat(&self) -> (service: Chats) {
        Chats { client: self.clone() }
    }

    fn embeddings(&self) -> (service: Embeddings) {
        Embeddings { client: self.clone() }
    }

    fn tokens(&self) -> (service: Tokens) {
        Tokens { client: self.clone() }
    }

    fn vision(&self) -> (service: Visions) {
        Visions { client: self.clone() }
    }

    fn stream(&self) -> (service: Streaming) {
        Streaming { client: self.clone() }
    }

    fn models(&self) -> (service: Models) {
        Models { client: self.clone() }
    }

    fn images(&self) -> (service: Images) {
        Images { client: self.clone() }
    }

    fn videos(&self) -> (service: Videos) {
        Videos { client: self.clone() }
    }

    fn tts(&self) -> (service: Tts) {
        Tts { client: self.clone() }
    }
}

/// The mathematical value of a `CBuilder`.
pub struct CBuilderView {
    pub model: Option<Model>,
    pub base_url: Option<Seq<char>>,
}

/// A builder of clients.
pub struct CBuilder {
    model: Option<Model>,
    base_url: Option<String>,
}

impl View for CBuilder {
    type V = CBuilderView;

    closed spec fn view(&self) -> CBuilderView {
        CBuilderView { model: self.model, base_url: text_view(self.base_url) }
    }
}

impl Default for CBuilder {
    fn default() -> (builder: Self)
        ensures
            builder@ == (CBuilderView { model: None, base_url: None }),
    {
        CBuilder { model: None, base_url: None }
    }
}

/// The model that a name selects: the one it names, or the default model
/// where it names none.
pub open spec fn selected_model(name: Seq<char>) -> Model {
    match Model::named(name) {
        Some(model) => model,
        None => Model::Flash20,
    }
}

impl CBuilder {
    /// Selects the model that `model` names, or the default model where it
    /// names none.
    pub fn model(self, model: &str) -> (builder: Self)
        ensures
            builder@ == (CBuilderView { model: Some(selected_model(model@)), ..self@ }),
    {
        let selected = match Model::from_str(model) {
            Ok(found) => found,
            Err(_) => Model::default(),
        };
        CBuilder { model: Some(selected), base_url: self.base_url }
    }

    /// Sets the base address that the configuration records. Requests go to
    /// the address of the API whatever is recorded.
    pub fn base_url(self, base_url: &str) -> (builder: Self)
        ensures
            builder@ == (CBuilderView { base_url: Some(base_url@), ..self@ }),
    {
        CBuilder { model: self.model, base_url: Some(base_url.to_owned()) }
    }

    /// The client: without a key, with the model selected or the default
    /// model, and with the base address set or that of the API. Building
    /// never fails.
    pub fn build(self) -> (client: Result<Client, GemsError>)
        ensures
            client matches Ok(built) && built@ == (ClientView {
                api_key: None,
                model: match self@.model {
                    Some(model) => model,
                    None => Model::Flash20,
                },
                base_url: match self@.base_url {
                    Some(url) => url,
                    None => GEMINI_BASE_URL@,
                },
            }),
    {
        let model = match self.model {
            Some(model) => model,
            None => Model::default(),
        };
        let base_url = match self.base_url {
            Some(url) => url,
            None => GEMINI_BASE_URL.to_owned(),
        };
        Ok(Client { api_key: None, model, base_url })
    }
}

} // verus!
