use vectors::openai::CompletionChoice;
use vectors::openai::CompletionMessage;
use vectors::openai::CompletionRequest;
use vectors::openai::CompletionResponse;
use vectors::openai::EmbeddingData;
use vectors::openai::EmbeddingRequest;
use vectors::openai::EmbeddingResponse;
use vectors::openai::Usage;

#[test]
fn embedding_request_new_leaves_knobs_unset() {
    let req = EmbeddingRequest::new("mock-model".to_string(), "mock-input".to_string());
    assert_eq!(req.model, "mock-model");
    assert_eq!(req.input, "mock-input");
    assert!(req.dimensions.is_none());
    assert!(req.user.is_none());
}

#[test]
fn completion_request_new_leaves_temperature_unset() {
    let messages = vec![CompletionMessage {
        role: "user".to_string(),
        content: "hello".to_string(),
    }];
    let req = CompletionRequest::new("mock-model".to_string(), messages);
    assert_eq!(req.model, "mock-model");
    assert_eq!(req.messages.len(), 1);
    assert_eq!(req.messages[0].role, "user");
    assert_eq!(req.messages[0].content, "hello");
    assert!(req.temperature.is_none());
}

#[test]
fn try_pop_embedding_takes_the_last_vector() {
    let resp = EmbeddingResponse {
        object: "mock-object".to_string(),
        data: vec![
            EmbeddingData {
                object: "mock-object".to_string(),
                embedding: vec![1, 2, 3],
                index: 0,
            },
            EmbeddingData {
                object: "mock-object".to_string(),
                embedding: vec![4, 5],
                index: 1,
            },
        ],
        model: "mock-model".to_string(),
        usage: Usage { prompt_tokens: 0, total_tokens: 0 },
    };
    let embedding = resp.try_pop_embedding();
    assert_eq!(embedding.unwrap(), vec![4, 5]);
}

#[test]
fn try_pop_embedding_on_empty_reply_is_an_error() {
    let resp = EmbeddingResponse {
        object: "mock-object".to_string(),
        data: vec![],
        model: "mock-model".to_string(),
        usage: Usage { prompt_tokens: 0, total_tokens: 0 },
    };
    let embedding = resp.try_pop_embedding();
    assert_eq!(embedding.unwrap_err().hint, "no embedding from service");
}

#[test]
fn try_pop_completion_takes_the_last_choice() {
    let resp = CompletionResponse {
        object: "chat.completion".to_string(),
        choices: vec![CompletionChoice {
            index: 0,
            message: CompletionMessage {
                role: "assistant".to_string(),
                content: "1+1=2".to_string(),
            },
            finish_reason: "stop".to_string(),
        }],
        model: "mock-model".to_string(),
        usage: Usage { prompt_tokens: 51, total_tokens: 57 },
    };
    let completion = resp.try_pop_completion();
    assert_eq!(completion.unwrap(), "1+1=2");
}

#[test]
fn try_pop_completion_on_empty_reply_is_an_error() {
    let resp = CompletionResponse {
        object: "chat.completion".to_string(),
        choices: vec![],
        model: "mock-model".to_string(),
        usage: Usage { prompt_tokens: 0, total_tokens: 0 },
    };
    let completion = resp.try_pop_completion();
    assert_eq!(completion.unwrap_err().hint, "no completion from service");
}
