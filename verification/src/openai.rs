//! Request and response data model for the text-embedding and completion
//! service the host can query. The wire transport (HTTP and its
//! serialization) is an external collaborator; this module holds the values
//! it carries and the verified selection logic on the replies.
//!
//! Numeric payload vectors and the sampling temperature travel through this
//! crate untouched: they are carried as the bit patterns of IEEE 754
//! single-precision values and never interpreted numerically here.

use vstd::prelude::*;

verus! {

/// Connection options for the embedding/completion service.
pub struct OpenAIOptions {
    pub base_url: String,
    pub api_key: String,
}

/// Failure of an embedding request or of reading its reply.
#[derive(Debug)]
pub struct EmbeddingError {
    pub hint: String,
}

/// One embedding vector of a reply, its entries carried as bit patterns.
#[derive(Debug)]
pub struct EmbeddingData {
    pub object: String,
    pub embedding: Vec<u32>,
    pub index: i32,
}

/// The body of an embedding request.
#[derive(Debug, Clone)]
pub struct EmbeddingRequest {
    pub model: String,
    pub input: String,
    pub dimensions: Option<i32>,
    pub user: Option<String>,
}

impl EmbeddingRequest {
    /// A request for `input` against `model`, with the optional knobs unset.
    pub fn new(model: String, input: String) -> (r: Self)
        ensures
            r.model == model,
            r.input == input,
            r.dimensions is None,
            r.user is None,
    {
        Self { model, input, dimensions: None, user: None }
    }
}

/// A full embedding reply.
#[derive(Debug)]
pub struct EmbeddingResponse {
    pub object: String,
    pub data: Vec<EmbeddingData>,
    pub model: String,
    pub usage: Usage,
}

impl EmbeddingResponse {
    /// Takes the last embedding vector out of the reply; a reply with no
    /// data at all is an error.
    pub fn try_pop_embedding(self) -> (r: Result<Vec<u32>, EmbeddingError>)
        ensures
            self.data@.len() > 0 ==> (r matches Ok(e) && e@ == self.data@.last().embedding@),
            self.data@.len() == 0 ==> (r matches Err(err) && err.hint@
                == "no embedding from service"@),
    {
        let mut this = self;
        match this.data.pop() {
            Some(d) => Ok(d.embedding),
            None => Err(EmbeddingError { hint: "no embedding from service".to_string() }),
        }
    }
}

/// Failure of a completion request or of reading its reply.
#[derive(Debug)]
pub struct CompletionError {
    pub hint: String,
}

/// One chat message of a completion conversation.
#[derive(Debug, Clone)]
pub struct CompletionMessage {
    pub role: String,
    pub content: String,
}

/// One completion vector of a reply, its entries carried as bit patterns.
#[derive(Debug)]
pub struct CompletionData {
    pub object: String,
    pub completion: Vec<u32>,
    pub index: i32,
}

/// The body of a completion request. The temperature, when set, is carried
/// as a bit pattern.
#[derive(Debug, Clone)]
pub struct CompletionRequest {
    pub model: String,
    pub messages: Vec<CompletionMessage>,
    pub temperature: Option<u32>,
}

impl CompletionRequest {
    /// A request sending `messages` to `model`, with the temperature unset.
    pub fn new(model: String, messages: Vec<CompletionMessage>) -> (r: Self)
        ensures
            r.model == model,
            r.messages == messages,
            r.temperature is None,
    {
        Self { model, messages, temperature: None }
    }
}

/// One answer offered by a completion reply.
#[derive(Debug)]
pub struct CompletionChoice {
    pub index: i32,
    pub message: CompletionMessage,
    pub finish_reason: String,
}

/// A full completion reply.
#[derive(Debug)]
pub struct CompletionResponse {
    pub object: String,
    pub choices: Vec<CompletionChoice>,
    pub model: String,
    pub usage: Usage,
}

impl CompletionResponse {
    /// Takes the text of the last choice out of the reply; a reply with no
    /// choices at all is an error.
    pub fn try_pop_completion(self) -> (r: Result<String, CompletionError>)
        ensures
            self.choices@.len() > 0 ==> (r matches Ok(c) && c
                == self.choices@.last().message.content),
            self.choices@.len() == 0 ==> (r matches Err(err) && err.hint@
                == "no completion from service"@),
    {
        let mut this = self;
        match this.choices.pop() {
            Some(d) => Ok(d.message.content),
            None => Err(CompletionError { hint: "no completion from service".to_string() }),
        }
    }
}

/// Token accounting attached to every reply.
#[derive(Debug)]
pub struct Usage {
    pub prompt_tokens: i32,
    pub total_tokens: i32,
}

} // verus!
