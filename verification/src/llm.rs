//! The model invocation facade: it selects a model by name, hands prepared
//! requests to a backend and brings every outcome into the boundary's shapes.

use crate::error::{
    arises_from_failure, boundary_error, LangChainError, LangChainErrorView, LlmError, LlmErrorView,
};
use crate::message::{
    messages_from_records, to_messages, ConversationMessage, ConversationMessageView, Message,
    MessageView,
};
use crate::options::{per_call, supplied_view, CallOptions, CallOptionsView};
use crate::text::{contains, occurs_at, text_contains};
use std::sync::Arc;
use vstd::prelude::*;

verus! {

/// The model that stands in for every name that selects no model of its own.
pub const DEFAULT_MODEL: &'static str = "gpt-4o-mini";

/// The model identifier that a requested name selects: the name itself where it
/// holds "gpt", and the default model otherwise.
pub open spec fn selected_model(model_name: Seq<char>) -> Seq<char> {
    if contains(model_name, "gpt"@) {
        model_name
    } else {
        DEFAULT_MODEL@
    }
}

/// The default model is itself a name that selects itself.
pub proof fn lemma_default_model_selects_itself()
    ensures
        contains(DEFAULT_MODEL@, "gpt"@),
        selected_model(DEFAULT_MODEL@) == DEFAULT_MODEL@,
{
    reveal_strlit("gpt-4o-mini");
    reveal_strlit("gpt");
    assert(DEFAULT_MODEL@.subrange(0, 3) =~= "gpt"@);
    assert(occurs_at(DEFAULT_MODEL@, "gpt"@, 0));
}

/// Selection never fails, always yields a name that holds "gpt", and selecting
/// again changes nothing.
pub proof fn lemma_selection_is_stable(model_name: Seq<char>)
    ensures
        contains(selected_model(model_name), "gpt"@),
        selected_model(selected_model(model_name)) == selected_model(model_name),
{
    lemma_default_model_selects_itself();
}

/// Selects the model identifier for a requested name.
pub fn select_model(model_name: String) -> (model: String)
    ensures
        model@ == selected_model(model_name@),
{
    if text_contains(model_name.as_str(), "gpt") {
        model_name
    } else {
        DEFAULT_MODEL.to_string()
    }
}

/// The token counts that a backend reports for one generation.
#[derive(Debug, Clone, Copy, PartialEq, Eq, Structural)]
pub struct TokenUsage {
    pub prompt_tokens: u32,
    pub completion_tokens: u32,
    pub total_tokens: u32,
}

/// What a backend returns from one generation.
#[derive(Debug, Clone, PartialEq, Eq)]
pub struct BackendGeneration {
    pub generation: String,
    pub tokens: Option<TokenUsage>,
}

/// The mathematical model of a [`BackendGeneration`].
pub struct BackendGenerationView {
    pub generation: Seq<char>,
    pub tokens: Option<TokenUsage>,
}

impl View for BackendGeneration {
    type V = BackendGenerationView;

    open spec fn view(&self) -> BackendGenerationView {
        BackendGenerationView { generation: self.generation@, tokens: self.tokens }
    }
}

/// What a generation returns across the boundary. The counts are absent where
/// the backend reported no usage.
#[derive(Debug, Clone, PartialEq, Eq)]
pub struct GenerationResult {
    pub text: String,
    pub prompt_tokens: Option<u32>,
    pub completion_tokens: Option<u32>,
    pub total_tokens: Option<u32>,
}

/// The mathematical model of a [`GenerationResult`].
pub struct GenerationResultView {
    pub text: Seq<char>,
    pub prompt_tokens: Option<u32>,
    pub completion_tokens: Option<u32>,
    pub total_tokens: Option<u32>,
}

impl View for GenerationResult {
    type V = GenerationResultView;

    open spec fn view(&self) -> GenerationResultView {
        GenerationResultView {
            text: self.text@,
            prompt_tokens: self.prompt_tokens,
            completion_tokens: self.completion_tokens,
            total_tokens: self.total_tokens,
        }
    }
}

/// The boundary result that stands for a backend's generation: the text, and the
/// three counts as the backend reported them, none recomputed.
pub open spec fn generation_result(generation: BackendGenerationView) -> GenerationResultView {
    match generation.tokens {
        Some(usage) => GenerationResultView {
            text: generation.generation,
            prompt_tokens: Some(usage.prompt_tokens),
            completion_tokens: Some(usage.completion_tokens),
            total_tokens: Some(usage.total_tokens),
        },
        None => GenerationResultView {
            text: generation.generation,
            prompt_tokens: None,
            completion_tokens: None,
            total_tokens: None,
        },
    }
}

/// The total that a backend reports is the sum of the two parts.
pub open spec fn usage_adds_up(usage: TokenUsage) -> bool {
    usage.total_tokens == usage.prompt_tokens + usage.completion_tokens
}

/// A result reports either all three counts or none of them.
pub open spec fn counts_all_or_none(result: GenerationResultView) -> bool {
    &&& result.prompt_tokens is Some <==> result.total_tokens is Some
    &&& result.completion_tokens is Some <==> result.total_tokens is Some
}

/// Where a result reports all three counts, the total is the sum of the two parts.
pub open spec fn counts_add_up(result: GenerationResultView) -> bool {
    result.prompt_tokens is Some && result.completion_tokens is Some && result.total_tokens
        is Some ==> result.total_tokens->0 == result.prompt_tokens->0
        + result.completion_tokens->0
}

/// The model of the outcome of a text completion.
pub open spec fn invoke_outcome_view(outcome: Result<String, LlmError>) -> Result<
    Seq<char>,
    LlmErrorView,
> {
    match outcome {
        Ok(text) => Ok(text@),
        Err(failure) => Err(failure@),
    }
}

/// What a text completion returns across the boundary, for each outcome of the
/// backend: the text as it came, or the failure's boundary error.
pub open spec fn invoke_result(
    outcome: Result<Seq<char>, LlmErrorView>,
) -> Result<Seq<char>, LangChainErrorView> {
    match outcome {
        Ok(text) => Ok(text),
        Err(failure) => Err(boundary_error(failure)),
    }
}

/// The model of what a text completion returns across the boundary.
pub open spec fn invoke_result_view(result: Result<String, LangChainError>) -> Result<
    Seq<char>,
    LangChainErrorView,
> {
    match result {
        Ok(text) => Ok(text@),
        Err(error) => Err(error@),
    }
}

/// Brings the outcome of a text completion across the boundary.
pub fn complete_invoke(outcome: Result<String, LlmError>) -> (result: Result<
    String,
    LangChainError,
>)
    ensures
        invoke_result_view(result) == invoke_result(invoke_outcome_view(outcome)),
{
    match outcome {
        Ok(text) => Ok(text),
        Err(failure) => Err(LangChainError::from(failure)),
    }
}

/// The model of the outcome of a generation.
pub open spec fn generate_outcome_view(outcome: Result<BackendGeneration, LlmError>) -> Result<
    BackendGenerationView,
    LlmErrorView,
> {
    match outcome {
        Ok(generation) => Ok(generation@),
        Err(failure) => Err(failure@),
    }
}

/// What a generation returns across the boundary, for each outcome of the
/// backend: the text with the counts as the backend reported them, or the
/// failure's boundary error.
pub open spec fn generate_result(outcome: Result<BackendGenerationView, LlmErrorView>) -> Result<
    GenerationResultView,
    LangChainErrorView,
> {
    match outcome {
        Ok(generation) => Ok(generation_result(generation)),
        Err(failure) => Err(boundary_error(failure)),
    }
}

/// The model of what a generation returns across the boundary.
pub open spec fn generate_result_view(result: Result<GenerationResult, LangChainError>) -> Result<
    GenerationResultView,
    LangChainErrorView,
> {
    match result {
        Ok(generated) => Ok(generated@),
        Err(error) => Err(error@),
    }
}

/// Brings the outcome of a generation across the boundary: on success the text
/// with the counts as the backend reported them, on failure the failure's
/// boundary error.
pub fn complete_generate(outcome: Result<BackendGeneration, LlmError>) -> (result: Result<
    GenerationResult,
    LangChainError,
>)
    ensures
        generate_result_view(result) == generate_result(generate_outcome_view(outcome)),
{
    match outcome {
        Ok(generation) => {
            let BackendGeneration { generation: text, tokens } = generation;
            match tokens {
                Some(usage) => Ok(
                    GenerationResult {
                        text,
                        prompt_tokens: Some(usage.prompt_tokens),
                        completion_tokens: Some(usage.completion_tokens),
                        total_tokens: Some(usage.total_tokens),
                    },
                ),
                None => Ok(
                    GenerationResult {
                        text,
                        prompt_tokens: None,
                        completion_tokens: None,
                        total_tokens: None,
                    },
                ),
            }
        },
        Err(failure) => Err(LangChainError::from(failure)),
    }
}

/// Token arithmetic. A result reports all three counts or none; and where the
/// backend's total is the sum of its two parts, so is the result's.
pub proof fn lemma_token_counts_are_carried(generation: BackendGenerationView)
    ensures
        counts_all_or_none(generation_result(generation)),
        generation.tokens is None || usage_adds_up(generation.tokens->0) ==> counts_add_up(
            generation_result(generation),
        ),
        generation.tokens is Some && counts_add_up(generation_result(generation))
            ==> usage_adds_up(generation.tokens->0),
{
}

/// A prepared text completion: what the facade hands to a backend.
#[derive(Debug, Clone, PartialEq, Eq)]
pub struct InvokeRequest {
    pub model: String,
    pub prompt: String,
}

/// The mathematical model of an [`InvokeRequest`].
pub struct InvokeRequestView {
    pub model: Seq<char>,
    pub prompt: Seq<char>,
}

impl View for InvokeRequest {
    type V = InvokeRequestView;

    open spec fn view(&self) -> InvokeRequestView {
        InvokeRequestView { model: self.model@, prompt: self.prompt@ }
    }
}

/// A prepared generation: what the facade hands to a backend.
#[derive(Debug, Clone, PartialEq, Eq)]
pub struct GenerateRequest {
    pub model: String,
    pub messages: Vec<ConversationMessage>,
    pub options: CallOptions,
}

/// The mathematical model of a [`GenerateRequest`].
pub struct GenerateRequestView {
    pub model: Seq<char>,
    pub messages: Seq<ConversationMessageView>,
    pub options: CallOptionsView,
}

impl View for GenerateRequest {
    type V = GenerateRequestView;

    open spec fn view(&self) -> GenerateRequestView {
        GenerateRequestView {
            model: self.model@,
            messages: self.messages.deep_view(),
            options: self.options@,
        }
    }
}

/// The request that a generation from boundary records hands to the backend:
/// the facade's model, the records read turn by turn in their order, and the
/// supplied overrides laid over options that override nothing.
pub open spec fn generate_request(
    model: Seq<char>,
    records: Seq<MessageView>,
    supplied: Option<CallOptionsView>,
) -> GenerateRequestView {
    GenerateRequestView {
        model,
        messages: to_messages(records),
        options: per_call(supplied),
    }
}

/// A model backend: the capability to complete a prompt and to generate from a
/// conversation.
///
/// A backend may say which answers it gives to which requests, through
/// `may_complete` and `may_generate`; the facade's contracts then speak of
/// exactly those answers. A backend that says nothing admits every answer, and
/// so does every backend that is written outside of verified code.
pub trait ModelBackend {
    /// `outcome` is an answer that this backend may give to the completion `request`.
    open spec fn may_complete(
        &self,
        request: InvokeRequestView,
        outcome: Result<Seq<char>, LlmErrorView>,
    ) -> bool {
        true
    }

    /// `outcome` is an answer that this backend may give to the generation `request`.
    open spec fn may_generate(
        &self,
        request: GenerateRequestView,
        outcome: Result<BackendGenerationView, LlmErrorView>,
    ) -> bool {
        true
    }

    /// Completes a free-text prompt.
    fn invoke(&self, request: &InvokeRequest) -> (outcome: Result<String, LlmError>)
        ensures
            self.may_complete(request@, invoke_outcome_view(outcome)),
    ;

    /// Generates the next turn of a conversation.
    fn generate(&self, request: &GenerateRequest) -> (outcome: Result<
        BackendGeneration,
        LlmError,
    >)
        ensures
            self.may_generate(request@, generate_outcome_view(outcome)),
    ;
}

/// `result` is what comes across the boundary when `backend` is handed the
/// completion `request`: the boundary form of one of the backend's answers to
/// exactly that request.
pub open spec fn completes<B: ModelBackend>(
    backend: B,
    request: InvokeRequestView,
    result: Result<Seq<char>, LangChainErrorView>,
) -> bool {
    exists|outcome: Result<Seq<char>, LlmErrorView>|
        #![trigger invoke_result(outcome)]
        backend.may_complete(request, outcome) && result == invoke_result(outcome)
}

/// `result` is what comes across the boundary when `backend` is handed the
/// generation `request`: the boundary form of one of the backend's answers to
/// exactly that request.
pub open spec fn generates<B: ModelBackend>(
    backend: B,
    request: GenerateRequestView,
    result: Result<GenerationResultView, LangChainErrorView>,
) -> bool {
    exists|outcome: Result<BackendGenerationView, LlmErrorView>|
        #![trigger generate_result(outcome)]
        backend.may_generate(request, outcome) && result == generate_result(outcome)
}

/// Whatever a backend answers, an error that comes across the boundary is the
/// boundary error of some failure, and a result reports all three token counts
/// or none.
pub proof fn lemma_whatever_the_backend_answers<B: ModelBackend>(
    backend: B,
    completion: InvokeRequestView,
    completed: Result<Seq<char>, LangChainErrorView>,
    generation: GenerateRequestView,
    generated: Result<GenerationResultView, LangChainErrorView>,
)
    ensures
        completes(backend, completion, completed) ==> (completed matches Err(error)
            ==> arises_from_failure(error)),
        generates(backend, generation, generated) ==> (generated matches Err(error)
            ==> arises_from_failure(error)),
        generates(backend, generation, generated) ==> (generated matches Ok(result)
            ==> counts_all_or_none(result)),
{
}

/// No mixing between calls. Where a backend answers every completion with a
/// text that depends on the prompt alone, what comes across the boundary for a
/// request is the text for that request's prompt and no other: nothing of any
/// other call enters it.
pub proof fn lemma_each_call_gets_its_own_answer<B: ModelBackend>(
    backend: B,
    answer_to: spec_fn(Seq<char>) -> Seq<char>,
    request: InvokeRequestView,
    result: Result<Seq<char>, LangChainErrorView>,
)
    requires
        forall|asked: InvokeRequestView, outcome: Result<Seq<char>, LlmErrorView>|
            #[trigger] backend.may_complete(asked, outcome) ==> outcome == Ok::<
                Seq<char>,
                LlmErrorView,
            >(answer_to(asked.prompt)),
        completes(backend, request, result),
    ensures
        result == Ok::<Seq<char>, LangChainErrorView>(answer_to(request.prompt)),
{
}

/// The model invocation facade. It is made once for a model selection and never
/// changes afterwards. It holds a shared handle to its backend, so that many
/// facades and many callers can use one backend.
pub struct Llm<B: ModelBackend> {
    backend: Arc<B>,
    model: String,
}

impl<B: ModelBackend> Llm<B> {
    /// The identifier of the model that this facade invokes.
    pub closed spec fn model_id(&self) -> Seq<char> {
        self.model@
    }

    /// The backend that this facade hands its requests to.
    pub closed spec fn backend(&self) -> B {
        *self.backend
    }

    #[verifier::type_invariant]
    closed spec fn names_a_model(&self) -> bool {
        contains(self.model@, "gpt"@)
    }

    /// Makes a facade for the model that `model_name` selects. This never
    /// fails: a name that selects no model of its own gets the default model.
    pub fn new(model_name: String, backend: Arc<B>) -> (llm: Llm<B>)
        ensures
            llm.model_id() == selected_model(model_name@),
            llm.backend() == *backend,
    {
        proof {
            lemma_selection_is_stable(model_name@);
        }
        Llm { backend, model: select_model(model_name) }
    }

    /// The identifier of the model that this facade invokes. It always holds "gpt".
    pub fn model(&self) -> (model: &str)
        ensures
            model@ == self.model_id(),
            contains(model@, "gpt"@),
    {
        proof {
            use_type_invariant(self);
        }
        self.model.as_str()
    }

    /// Prepares a text completion: this facade's model and the prompt as given.
    pub fn invoke_request(&self, prompt: String) -> (request: InvokeRequest)
        ensures
            request@ == (InvokeRequestView { model: self.model_id(), prompt: prompt@ }),
    {
        InvokeRequest { model: self.model.clone(), prompt }
    }

    /// Prepares a generation from boundary records.
    pub fn generate_request(&self, messages: Vec<Message>, options: Option<CallOptions>) -> (request:
        GenerateRequest)
        ensures
            request@ == generate_request(
                self.model_id(),
                messages.deep_view(),
                supplied_view(options),
            ),
    {
        GenerateRequest {
            model: self.model.clone(),
            messages: messages_from_records(messages),
            options: CallOptions::for_call(options),
        }
    }

    /// Prepares a generation from a conversation that is already in the core's
    /// own shape.
    pub fn conversation_request(
        &self,
        messages: Vec<ConversationMessage>,
        options: Option<CallOptions>,
    ) -> (request: GenerateRequest)
        ensures
            request@ == (GenerateRequestView {
                model: self.model_id(),
                messages: messages.deep_view(),
                options: per_call(supplied_view(options)),
            }),
    {
        GenerateRequest {
            model: self.model.clone(),
            messages,
            options: CallOptions::for_call(options),
        }
    }

    /// Hands a prepared generation to the backend, as it is, and brings the
    /// outcome across the boundary.
    pub fn send(&self, request: &GenerateRequest) -> (result: Result<
        GenerationResult,
        LangChainError,
    >)
        ensures
            generates(self.backend(), request@, generate_result_view(result)),
            result matches Err(error) ==> arises_from_failure(error@),
            result matches Ok(generated) ==> counts_all_or_none(generated@),
    {
        let outcome = self.backend.generate(request);
        let result = complete_generate(outcome);
        proof {
            assert(generate_result_view(result) == generate_result(
                generate_outcome_view(outcome),
            ));
        }
        result
    }

    /// Completes a free-text prompt: the backend is handed this facade's model
    /// and the prompt, once, and its answer comes back as it is. A failure
    /// comes back as its boundary error, which is never `InvalidModel` nor
    /// `NetworkError`.
    pub fn invoke(&self, prompt: String) -> (result: Result<String, LangChainError>)
        ensures
            completes(
                self.backend(),
                InvokeRequestView { model: self.model_id(), prompt: prompt@ },
                invoke_result_view(result),
            ),
            result matches Err(error) ==> arises_from_failure(error@),
    {
        let request = self.invoke_request(prompt);
        let outcome = self.backend.invoke(&request);
        let result = complete_invoke(outcome);
        proof {
            assert(invoke_result_view(result) == invoke_result(invoke_outcome_view(outcome)));
        }
        result
    }

    /// Generates the next turn of a conversation given as boundary records,
    /// under the overrides that were supplied, if any: the backend is handed
    /// the prepared request, once. A failure comes back as its boundary error;
    /// a result reports all three token counts or none.
    pub fn generate(&self, messages: Vec<Message>, options: Option<CallOptions>) -> (result:
        Result<GenerationResult, LangChainError>)
        ensures
            generates(
                self.backend(),
                generate_request(self.model_id(), messages.deep_view(), supplied_view(options)),
                generate_result_view(result),
            ),
            result matches Err(error) ==> arises_from_failure(error@),
            result matches Ok(generated) ==> counts_all_or_none(generated@),
    {
        let request = self.generate_request(messages, options);
        self.send(&request)
    }
}

/// Completes one prompt with the model that `model_name` selects: a facade is
/// made for the name, and the backend is handed the selected model and the
/// prompt.
pub fn invoke_llm<B: ModelBackend>(model_name: String, prompt: String, backend: Arc<B>) -> (result:
    Result<String, LangChainError>)
    ensures
        completes(
            *backend,
            InvokeRequestView { model: selected_model(model_name@), prompt: prompt@ },
            invoke_result_view(result),
        ),
        result matches Err(error) ==> arises_from_failure(error@),
{
    Llm::new(model_name, backend).invoke(prompt)
}

} // verus!
