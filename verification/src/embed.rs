//! Embeddings of one content or of several at once.

use crate::client::{request_for, Call, Client, Method};
use crate::error::GemsError;
use crate::messages::Message;
use crate::models::Model;
use crate::requests::{
    Content, GeminiEmbedRequest, GeminiEmbedRequestView, GeminiEmbedRequests, PartView,
};
use crate::traits::CTrait;
use vstd::prelude::*;
use vstd::string::StringExecFns;

verus! {

/// The parameters of an embedding: the model and the message to embed.
#[derive(Debug, Clone)]
pub struct Embedding {
    pub model: Model,
    pub input: Message,
}

impl Default for Embedding {
    fn default() -> (params: Self)
        ensures
            params.model == Model::Flash20,
            params.input.text() == Seq::<char>::empty(),
    {
        Embedding { model: Model::default(), input: Message::default() }
    }
}

/// The parameters of a batch of embeddings: the model and the messages to
/// embed.
#[derive(Debug, Clone)]
pub struct BatchEmbedding {
    pub model: Model,
    pub input: Vec<Message>,
}

impl Default for BatchEmbedding {
    fn default() -> (params: Self)
        ensures
            params.model == Model::Flash20,
            params.input@.len() == 0,
    {
        BatchEmbedding { model: Model::default(), input: Vec::new() }
    }
}

/// The embedding service of a client.
pub struct Embeddings {
    pub client: Client,
}

/// The name by which an embedding request calls a model: its name behind
/// `models/`.
pub open spec fn qualified_name(model: Model) -> Seq<char> {
    "models/"@ + model.name()
}

/// The request that embeds `text` with `model`.
pub open spec fn embed_body(model: Model, text: Seq<char>) -> GeminiEmbedRequestView {
    GeminiEmbedRequestView {
        model: qualified_name(model),
        content: seq![PartView::Text { text }],
    }
}

/// The requests of a batch: one for each message, in order.
pub open spec fn batch_body(params: BatchEmbedding) -> Seq<GeminiEmbedRequestView> {
    params.input@.map_values(|message: Message| embed_body(params.model, message.text()))
}

fn embed_one(model: Model, input: &Message) -> (body: GeminiEmbedRequest)
    ensures
        body@ == embed_body(model, input.text()),
{
    let body = GeminiEmbedRequest {
        model: "models/".to_owned().concat(model.as_str()),
        content: Content { parts: vec![input.to_part()] },
    };
    assert(body@.content =~= seq![PartView::Text { text: input.text() }]);
    body
}

impl Embeddings {
    /// The body of the request that embeds one message.
    pub fn create_body(params: &Embedding) -> (body: GeminiEmbedRequest)
        ensures
            body@ == embed_body(params.model, params.input.text()),
    {
        embed_one(params.model, &params.input)
    }

    /// What to send for one embedding. Without an API key there is nothing
    /// to send.
    pub fn create(&self, params: Embedding) -> (call: Result<Call<GeminiEmbedRequest>, GemsError>)
        ensures
            match request_for(self.client@, Method::Post, "embedContent"@) {
                Ok(planned) => call matches Ok(made) && made.request@ == planned && made.body@
                    == embed_body(params.model, params.input.text()),
                Err(error) => call matches Err(refused) && refused@ == error,
            },
    {
        let body = Embeddings::create_body(&params);
        match self.client.request(Method::Post, "embedContent") {
            Ok(request) => Ok(Call { request, body }),
            Err(error) => Err(error),
        }
    }

    /// The body of the request that embeds each message of a batch.
    pub fn batch_body(params: &BatchEmbedding) -> (body: GeminiEmbedRequests)
        ensures
            body@ == batch_body(*params),
    {
        let mut requests: Vec<GeminiEmbedRequest> = Vec::new();
        let ghost view = |request: GeminiEmbedRequest| request@;
        let ghost one = |message: Message| embed_body(params.model, message.text());
        let mut i: usize = 0;
        assert(requests@.map_values(view) =~= params.input@.take(0).map_values(one));
        while i < params.input.len()
            invariant
                i <= params.input.len(),
                view == |request: GeminiEmbedRequest| request@,
                one == |message: Message| embed_body(params.model, message.text()),
                requests@.map_values(view) == params.input@.take(i as int).map_values(one),
            decreases params.input.len() - i,
        {
            let request = embed_one(params.model, &params.input[i]);
            let ghost before = requests@.map_values(view);
            requests.push(request);
            assert(requests@.map_values(view) =~= before.push(request@));
            assert(params.input@.take(i + 1).map_values(one) =~= params.input@.take(
                i as int,
            ).map_values(one).push(request@));
            i += 1;
        }
        assert(params.input@.take(params.input.len() as int) =~= params.input@);
        GeminiEmbedRequests { requests }
    }

    /// What to send for a batch of embeddings. Without an API key there is
    /// nothing to send.
    pub fn batch(&self, params: BatchEmbedding) -> (call: Result<Call<GeminiEmbedRequests>, GemsError>)
        ensures
            match request_for(self.client@, Method::Post, "batchEmbedContents"@) {
                Ok(planned) => call matches Ok(made) && made.request@ == planned && made.body@
                    == batch_body(params),
                Err(error) => call matches Err(refused) && refused@ == error,
            },
    {
        let body = Embeddings::batch_body(&params);
        match self.client.request(Method::Post, "batchEmbedContents") {
            Ok(request) => Ok(Call { request, body }),
            Err(error) => Err(error),
        }
    }
}

/// A builder of the parameters of an embedding.
#[derive(Debug, Clone)]
pub struct EmbeddingBuilder {
    pub model: Option<Model>,
    pub input: Option<Message>,
}

impl Default for EmbeddingBuilder {
    fn default() -> (builder: Self)
        ensures
            builder.model is None,
            builder.input is None,
    {
        EmbeddingBuilder { model: None, input: None }
    }
}

impl EmbeddingBuilder {
    /// Sets the model.
    pub fn model(self, model: Model) -> (builder: Self)
        ensures
            builder == (EmbeddingBuilder { model: Some(model), ..self }),
    {
        EmbeddingBuilder { model: Some(model), input: self.input }
    }

    /// Sets the input.
    pub fn input(self, input: Message) -> (builder: Self)
        ensures
            builder == (EmbeddingBuilder { input: Some(input), ..self }),
    {
        EmbeddingBuilder { model: self.model, input: Some(input) }
    }

    /// The parameters: each field as it was set, or its default. Building
    /// never fails.
    pub fn build(self) -> (built: Result<Embedding, GemsError>)
        ensures
            built matches Ok(value) && {
                &&& value.model == match self.model {
                    Some(model) => model,
                    None => Model::Flash20,
                }
                &&& match self.input {
                    Some(input) => value.input == input,
                    None => value.input is User && value.input.text() == Seq::<char>::empty(),
                }
            },
    {
        let model = match self.model {
            Some(model) => model,
            None => Model::default(),
        };
        let input = match self.input {
            Some(input) => input,
            None => Message::default(),
        };
        Ok(Embedding { model, input })
    }
}

/// A builder of the parameters of a batch of embeddings.
#[derive(Debug, Clone)]
pub struct BatchEmbeddingBuilder {
    pub model: Option<Model>,
    pub input: Option<Vec<Message>>,
}

impl Default for BatchEmbeddingBuilder {
    fn default() -> (builder: Self)
        ensures
            builder.model is None,
            builder.input is None,
    {
        BatchEmbeddingBuilder { model: None, input: None }
    }
}

impl BatchEmbeddingBuilder {
    /// Sets the model.
    pub fn model(self, model: Model) -> (builder: Self)
        ensures
            builder == (BatchEmbeddingBuilder { model: Some(model), ..self }),
    {
        BatchEmbeddingBuilder { model: Some(model), input: self.input }
    }

    /// Sets the input.
    pub fn input(self, input: Vec<Message>) -> (builder: Self)
        ensures
            builder == (BatchEmbeddingBuilder { input: Some(input), ..self }),
    {
        BatchEmbeddingBuilder { model: self.model, input: Some(input) }
    }

    /// The parameters: each field as it was set, or its default. Building
    /// never fails.
    pub fn build(self) -> (built: Result<BatchEmbedding, GemsError>)
        ensures
            built matches Ok(value) && {
                &&& value.model == match self.model {
                    Some(model) => model,
                    None => Model::Flash20,
                }
                &&& match self.input {
                    Some(input) => value.input == input,
                    None => value.input@.len() == 0,
                }
            },
    {
        let model = match self.model {
            Some(model) => model,
            None => Model::default(),
        };
        let input = match self.input {
            Some(input) => input,
            None => Vec::new(),
        };
        Ok(BatchEmbedding { model, input })
    }
}

} // verus!
