use langchain_bridge::error::LlmError;
use langchain_bridge::llm::{
    complete_generate, complete_invoke, select_model, BackendGeneration, GenerateRequest,
    GenerationResult, InvokeRequest, Llm, ModelBackend, TokenUsage, DEFAULT_MODEL,
};
use langchain_bridge::message::{ConversationMessage, Role};
use langchain_bridge::options::CallOptions;
use langchain_bridge::{invoke_llm, LangChainError, Message};
use std::sync::{Arc, Mutex};

/// A backend that records every request and answers from a script.
struct Scripted {
    invoked: Mutex<Vec<InvokeRequest>>,
    generated: Mutex<Vec<GenerateRequest>>,
    usage: Option<TokenUsage>,
    failure: Option<LlmError>,
}

impl Scripted {
    fn answering(usage: Option<TokenUsage>) -> Scripted {
        Scripted { invoked: Mutex::new(Vec::new()), generated: Mutex::new(Vec::new()), usage, failure: None }
    }

    fn failing(failure: LlmError) -> Scripted {
        Scripted {
            invoked: Mutex::new(Vec::new()),
            generated: Mutex::new(Vec::new()),
            usage: None,
            failure: Some(failure),
        }
    }
}

impl ModelBackend for Scripted {
    fn invoke(&self, request: &InvokeRequest) -> Result<String, LlmError> {
        self.invoked.lock().unwrap().push(request.clone());
        match &self.failure {
            Some(failure) => Err(failure.clone()),
            None => Ok(format!("echo[{}]: {}", request.model, request.prompt)),
        }
    }

    fn generate(&self, request: &GenerateRequest) -> Result<BackendGeneration, LlmError> {
        self.generated.lock().unwrap().push(request.clone());
        match &self.failure {
            Some(failure) => Err(failure.clone()),
            None => Ok(BackendGeneration {
                generation: format!("{} turns", request.messages.len()),
                tokens: self.usage,
            }),
        }
    }
}

fn record(content: &str, message_type: &str) -> Message {
    Message { content: content.to_string(), message_type: message_type.to_string() }
}

#[test]
fn a_gpt_name_is_kept_as_it_is() {
    assert_eq!(select_model("gpt-4o".to_string()), "gpt-4o");
    assert_eq!(select_model("my-gpt".to_string()), "my-gpt");
    assert_eq!(select_model("gpt".to_string()), "gpt");
    let backend = Arc::new(Scripted::answering(None));
    let llm = Llm::new("gpt-4o".to_string(), backend.clone());
    assert_eq!(llm.model(), "gpt-4o");
}

#[test]
fn any_other_name_selects_the_default_model() {
    assert_eq!(DEFAULT_MODEL, "gpt-4o-mini");
    assert_eq!(select_model("made-up-model".to_string()), DEFAULT_MODEL);
    assert_eq!(select_model(String::new()), DEFAULT_MODEL);
    assert_eq!(select_model("GPT-4".to_string()), DEFAULT_MODEL);
    assert_eq!(select_model("g-p-t".to_string()), DEFAULT_MODEL);
    let backend = Arc::new(Scripted::answering(None));
    let llm = Llm::new("made-up-model".to_string(), backend.clone());
    assert_eq!(llm.model(), DEFAULT_MODEL);
}

#[test]
fn selecting_twice_is_selecting_once() {
    for name in ["gpt-4o", "llama-3", "", "text-gpt-x"] {
        let once = select_model(name.to_string());
        assert_eq!(select_model(once.clone()), once);
        assert!(once.contains("gpt"));
    }
}

#[test]
fn invoke_hands_the_model_and_the_prompt_to_the_backend() {
    let backend = Arc::new(Scripted::answering(None));
    let llm = Llm::new("gpt-4o".to_string(), backend.clone());
    assert_eq!(llm.invoke("hello".to_string()), Ok("echo[gpt-4o]: hello".to_string()));
    assert_eq!(
        *backend.invoked.lock().unwrap(),
        vec![InvokeRequest { model: "gpt-4o".to_string(), prompt: "hello".to_string() }]
    );
    assert!(backend.generated.lock().unwrap().is_empty());
    assert_eq!(
        llm.invoke_request("again".to_string()),
        InvokeRequest { model: "gpt-4o".to_string(), prompt: "again".to_string() }
    );
}

#[test]
fn invoke_llm_selects_and_invokes() {
    let backend = Arc::new(Scripted::answering(None));
    assert_eq!(
        invoke_llm("made-up-model".to_string(), "hi".to_string(), backend.clone()),
        Ok("echo[gpt-4o-mini]: hi".to_string())
    );
    assert_eq!(
        invoke_llm("gpt-4".to_string(), String::new(), backend.clone()),
        Ok("echo[gpt-4]: ".to_string())
    );
    assert_eq!(backend.invoked.lock().unwrap().len(), 2);
}

#[test]
fn a_failed_invoke_comes_back_as_its_boundary_error() {
    let unauthorized = Arc::new(Scripted::failing(LlmError::RequestError("status 401".to_string())));
    assert_eq!(
        invoke_llm("gpt-4o".to_string(), "x".to_string(), unauthorized.clone()),
        Err(LangChainError::Unauthorized)
    );
    let limited = Arc::new(Scripted::failing(LlmError::RequestError("status 429".to_string())));
    assert_eq!(Llm::new("gpt-4o".to_string(), limited.clone()).invoke("x".to_string()), Err(LangChainError::TokenLimitExceeded));
    let broken = Arc::new(Scripted::failing(LlmError::SerdeError("eof".to_string())));
    assert_eq!(
        Llm::new("gpt-4o".to_string(), broken.clone()).invoke("x".to_string()),
        Err(LangChainError::ApiError("eof".to_string()))
    );
}

#[test]
fn complete_invoke_passes_text_and_maps_failures() {
    assert_eq!(complete_invoke(Ok("text".to_string())), Ok("text".to_string()));
    assert_eq!(complete_invoke(Ok(String::new())), Ok(String::new()));
    assert_eq!(
        complete_invoke(Err(LlmError::RequestError("500".to_string()))),
        Err(LangChainError::ServerError("500".to_string()))
    );
    assert_eq!(
        complete_invoke(Err(LlmError::Other("Weird".to_string()))),
        Err(LangChainError::UnknownError("Weird".to_string()))
    );
}

#[test]
fn generate_reads_the_records_and_lays_the_overrides() {
    let backend = Arc::new(Scripted::answering(None));
    let llm = Llm::new("made-up-model".to_string(), backend.clone());
    let options = CallOptions::default().with_temperature_bits(0.5f32.to_bits()).with_max_tokens(64);
    let result = llm.generate(
        vec![record("be brief", "system"), record("hi", "human"), record("x", "tool")],
        Some(options.clone()),
    );
    assert_eq!(
        result,
        Ok(GenerationResult {
            text: "3 turns".to_string(),
            prompt_tokens: None,
            completion_tokens: None,
            total_tokens: None,
        })
    );
    assert_eq!(
        *backend.generated.lock().unwrap(),
        vec![GenerateRequest {
            model: DEFAULT_MODEL.to_string(),
            messages: vec![
                ConversationMessage::new(Role::System, "be brief"),
                ConversationMessage::new(Role::Human, "hi"),
                ConversationMessage::new(Role::Human, "x"),
            ],
            options,
        }]
    );
}

#[test]
fn generate_without_options_overrides_nothing() {
    let backend = Arc::new(Scripted::answering(None));
    let llm = Llm::new("gpt-4o".to_string(), backend.clone());
    assert!(llm.generate(Vec::new(), None).is_ok());
    let seen = backend.generated.lock().unwrap();
    assert_eq!(seen.len(), 1);
    assert_eq!(seen[0].options, CallOptions::default());
    assert!(seen[0].messages.is_empty());
    assert_eq!(seen[0].model, "gpt-4o");
    assert_eq!(llm.generate_request(Vec::new(), None), seen[0]);
}

#[test]
fn conversation_request_keeps_the_conversation_as_given() {
    let backend = Arc::new(Scripted::answering(None));
    let llm = Llm::new("gpt-4o".to_string(), backend.clone());
    let turns = vec![
        ConversationMessage { role: Role::Tool, content: "t".to_string() },
        ConversationMessage::new_ai_message("a"),
    ];
    let request = llm.conversation_request(turns.clone(), Some(CallOptions::default().with_max_tokens(5)));
    assert_eq!(
        request,
        GenerateRequest {
            model: "gpt-4o".to_string(),
            messages: turns,
            options: CallOptions::default().with_max_tokens(5),
        }
    );
    assert!(backend.generated.lock().unwrap().is_empty());
}

#[test]
fn reported_counts_that_add_up_are_carried_over() {
    let usage = TokenUsage { prompt_tokens: 12, completion_tokens: 30, total_tokens: 42 };
    let backend = Arc::new(Scripted::answering(Some(usage)));
    let llm = Llm::new("gpt-4o".to_string(), backend.clone());
    let result = llm.generate(vec![record("hi", "human")], None).unwrap();
    assert_eq!(result.text, "1 turns");
    assert_eq!(result.prompt_tokens, Some(12));
    assert_eq!(result.completion_tokens, Some(30));
    assert_eq!(result.total_tokens, Some(42));
    assert_eq!(
        result.total_tokens.unwrap(),
        result.prompt_tokens.unwrap() + result.completion_tokens.unwrap()
    );
}

#[test]
fn counts_are_never_recomputed() {
    let odd = TokenUsage { prompt_tokens: 1, completion_tokens: 1, total_tokens: 5 };
    let result = complete_generate(Ok(BackendGeneration { generation: "g".to_string(), tokens: Some(odd) }));
    assert_eq!(
        result,
        Ok(GenerationResult {
            text: "g".to_string(),
            prompt_tokens: Some(1),
            completion_tokens: Some(1),
            total_tokens: Some(5),
        })
    );
    let large = TokenUsage { prompt_tokens: u32::MAX, completion_tokens: u32::MAX, total_tokens: 0 };
    let carried = complete_generate(Ok(BackendGeneration { generation: String::new(), tokens: Some(large) })).unwrap();
    assert_eq!(carried.prompt_tokens, Some(u32::MAX));
    assert_eq!(carried.completion_tokens, Some(u32::MAX));
    assert_eq!(carried.total_tokens, Some(0));
}

#[test]
fn without_usage_no_count_is_reported() {
    let result = complete_generate(Ok(BackendGeneration { generation: "g".to_string(), tokens: None })).unwrap();
    assert_eq!(result.prompt_tokens, None);
    assert_eq!(result.completion_tokens, None);
    assert_eq!(result.total_tokens, None);
}

#[test]
fn a_failed_generation_comes_back_as_its_boundary_error() {
    assert_eq!(
        complete_generate(Err(LlmError::ContentNotFound("no choices".to_string()))),
        Err(LangChainError::ApiError("no choices".to_string()))
    );
    let backend = Arc::new(Scripted::failing(LlmError::InvalidArgument("max_tokens must be positive".to_string())));
    let llm = Llm::new("gpt-4o".to_string(), backend.clone());
    assert_eq!(
        llm.generate(vec![record("hi", "human")], Some(CallOptions::default().with_max_tokens(0))),
        Err(LangChainError::InvalidArgument("max_tokens must be positive".to_string()))
    );
    assert_eq!(backend.generated.lock().unwrap().len(), 1);
}

#[test]
fn send_hands_a_prepared_request_over_as_it_is() {
    let usage = TokenUsage { prompt_tokens: 2, completion_tokens: 3, total_tokens: 5 };
    let backend = Arc::new(Scripted::answering(Some(usage)));
    let llm = Llm::new("gpt-4o".to_string(), backend.clone());
    let request = GenerateRequest {
        model: "gpt-4o".to_string(),
        messages: vec![ConversationMessage::new_system_message("s"), ConversationMessage::new_human_message("h")],
        options: CallOptions::default().with_stop_words(vec!["\n".to_string()]),
    };
    assert_eq!(
        llm.send(&request),
        Ok(GenerationResult {
            text: "2 turns".to_string(),
            prompt_tokens: Some(2),
            completion_tokens: Some(3),
            total_tokens: Some(5),
        })
    );
    assert_eq!(*backend.generated.lock().unwrap(), vec![request]);
}
