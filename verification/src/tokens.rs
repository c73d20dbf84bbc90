//! Counting the tokens of a message.

use crate::client::{request_for, Call, Client, Method};
use crate::error::GemsError;
use crate::messages::Message;
use crate::models::Model;
use crate::requests::{Content, GeminiRequest, GeminiRequestView, PartView};
use crate::traits::CTrait;
use vstd::prelude::*;

verus! {

/// The token-counting service of a client.
pub struct Tokens {
    pub client: Client,
}

/// The parameters of a count: the model and the message to count.
#[derive(Debug, Clone)]
pub struct Token {
    pub model: Model,
    pub input: Message,
}

impl Default for Token {
    fn default() -> (params: Self)
        ensures
            params.model == Model::Flash20,
            params.input.text() == Seq::<char>::empty(),
    {
        Token { model: Model::default(), input: Message::default() }
    }
}

/// The body of a request with one content of one text part.
pub open spec fn single_text_body(model: Model, text: Seq<char>) -> GeminiRequestView {
    GeminiRequestView {
        model: model.name(),
        contents: seq![seq![PartView::Text { text }]],
        system_instruction: None,
        config: None,
    }
}

/// The count that an answer gives: its total, or zero where it holds none.
pub open spec fn token_count(total: Option<u64>) -> usize {
    match total {
        Some(n) => n as usize,
        None => 0,
    }
}

impl Tokens {
    /// The body of the request that counts the tokens of a message.
    pub fn count_body(params: &Token) -> (body: GeminiRequest)
        ensures
            body@ == single_text_body(params.model, params.input.text()),
    {
        let body = GeminiRequest {
            model: params.model.to_string(),
            contents: vec![Content { parts: vec![params.input.to_part()] }],
            system_instruction: None,
            config: None,
        };
        assert(body@.contents[0] =~= seq![PartView::Text { text: params.input.text() }]);
        assert(body@.contents =~= seq![seq![PartView::Text { text: params.input.text() }]]);
        body
    }

    /// What to send for a count. Without an API key there is nothing to
    /// send.
    pub fn count(&self, params: Token) -> (call: Result<Call<GeminiRequest>, GemsError>)
        ensures
            match request_for(self.client@, Method::Post, "countTokens"@) {
                Ok(planned) => call matches Ok(made) && made.request@ == planned && made.body@
                    == single_text_body(params.model, params.input.text()),
                Err(error) => call matches Err(refused) && refused@ == error,
            },
    {
        let body = Tokens::count_body(&params);
        match self.client.request(Method::Post, "countTokens") {
            Ok(request) => Ok(Call { request, body }),
            Err(error) => Err(error),
        }
    }

    /// The count that an answer gives, from the `totalTokens` number of its
    /// body: that number, or zero where the body holds none.
    pub fn count_result(total: Option<u64>) -> (count: usize)
        ensures
            count == token_count(total),
    {
        match total {
            Some(n) => #[verifier::truncate]
            (n as usize),
            None => 0,
        }
    }
}

/// A builder of the parameters of a count.
#[derive(Debug, Clone)]
pub struct TokenBuilder {
    pub model: Option<Model>,
    pub input: Option<Message>,
}

impl Default for TokenBuilder {
    fn default() -> (builder: Self)
        ensures
            builder.model is None,
            builder.input is None,
    {
        TokenBuilder { model: None, input: None }
    }
}

impl TokenBuilder {
    /// Sets the model.
    pub fn model(self, model: Model) -> (builder: Self)
        ensures
            builder == (TokenBuilder { model: Some(model), ..self }),
    {
        TokenBuilder { model: Some(model), input: self.input }
    }

    /// Sets the input.
    pub fn input(self, input: Message) -> (builder: Self)
        ensures
            builder == (TokenBuilder { input: Some(input), ..self }),
    {
        TokenBuilder { model: self.model, input: Some(input) }
    }

    /// The parameters: each field as it was set, or its default. Building
    /// never fails.
    pub fn build(self) -> (built: Result<Token, GemsError>)
        ensures
            built matches Ok(value) && {
                &&& value.model == match self.model {
                    Some(model) => model,
                    None => Model::Flash20,
                }
                &&& match self.input {
                    Some(input) => value.input == input,
                    None => value.input is User && value.input.text() == Seq::<char>::empty(),
                }
            },
    {
        let model = match self.model {
            Some(model) => model,
            None => Model::default(),
        };
        let input = match self.input {
            Some(input) => input,
            None => Message::default(),
        };
        Ok(Token { model, input })
    }
}

} // verus!
