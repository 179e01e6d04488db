//! The chain: format a prompt, make it a conversation turn, invoke the model.

use crate::error::{
    arises_from_failure, boundary_error, LangChainError, LangChainErrorView, LlmErrorView,
};
use crate::llm::{
    generate_result_view, generates, GenerateRequest, GenerateRequestView, GenerationResult,
    GenerationResultView, Llm, ModelBackend,
};
use crate::message::{
    messages_from_records, to_message, to_messages, ConversationMessage, ConversationMessageView,
    Message, MessageView, Role,
};
use crate::options::no_overrides;
use crate::prompt::{
    brace_free, format_prompt, lemma_single_placeholder, render, template_error_text,
};
use std::sync::Arc;
use vstd::prelude::*;

verus! {

/// A human turn with the given content.
pub open spec fn human_turn(content: Seq<char>) -> ConversationMessageView {
    ConversationMessageView { role: Role::Human, content }
}

/// The request that one run of a chain hands to the model: a single human turn
/// that holds the formatted prompt, with no call options. Where the template
/// cannot be formatted, the run fails with `InvalidArgument` and the
/// formatter's text, and nothing is handed to the model.
pub open spec fn run_request(model: Seq<char>, template: Seq<char>, input: Seq<char>) -> Result<
    GenerateRequestView,
    LangChainErrorView,
> {
    match render(template, input) {
        Ok(prompt) => Ok(
            GenerateRequestView { model, messages: seq![human_turn(prompt)], options: no_overrides() },
        ),
        Err(error) => Err(LangChainErrorView::InvalidArgument(template_error_text(error))),
    }
}

/// The request that a run with context hands to the model: the context, turn by
/// turn in its order, and then the input as a human turn, with no call options.
/// The input is taken as it is; the template plays no part.
pub open spec fn context_request(
    model: Seq<char>,
    input: Seq<char>,
    context: Seq<MessageView>,
) -> GenerateRequestView {
    GenerateRequestView {
        model,
        messages: to_messages(context).push(human_turn(input)),
        options: no_overrides(),
    }
}

/// What a run returns, for each result of the generation that it asked for: the
/// generated text alone, or the error as it is.
pub open spec fn text_of(generated: Result<GenerationResultView, LangChainErrorView>) -> Result<
    Seq<char>,
    LangChainErrorView,
> {
    match generated {
        Ok(result) => Ok(result.text),
        Err(error) => Err(error),
    }
}

/// `result` is what a run returns when the model is handed `request`: the text
/// of what comes across the boundary for exactly that request.
pub open spec fn answers<B: ModelBackend>(
    backend: B,
    request: GenerateRequestView,
    result: Result<Seq<char>, LangChainErrorView>,
) -> bool {
    exists|generated: Result<GenerationResultView, LangChainErrorView>|
        #![trigger text_of(generated)]
        generates(backend, request, generated) && result == text_of(generated)
}

/// The model of a request that may have failed to be prepared.
pub open spec fn request_view(request: Result<GenerateRequest, LangChainError>) -> Result<
    GenerateRequestView,
    LangChainErrorView,
> {
    match request {
        Ok(prepared) => Ok(prepared@),
        Err(error) => Err(error@),
    }
}

/// The model of what a run returns.
pub open spec fn text_result_view(result: Result<String, LangChainError>) -> Result<
    Seq<char>,
    LangChainErrorView,
> {
    match result {
        Ok(text) => Ok(text@),
        Err(error) => Err(error@),
    }
}

/// Keeps the text of a generation and lets the token counts go; an error stays
/// that error.
pub fn generated_text(generated: Result<GenerationResult, LangChainError>) -> (result: Result<
    String,
    LangChainError,
>)
    ensures
        text_result_view(result) == text_of(generate_result_view(generated)),
{
    match generated {
        Ok(result) => Ok(result.text),
        Err(error) => Err(error),
    }
}

/// A prompt template bound to a model facade, which it may share with other
/// chains. A chain never changes after it is made and keeps nothing from one
/// run to the next.
pub struct Chain<B: ModelBackend> {
    llm: Arc<Llm<B>>,
    prompt_template: String,
}

impl<B: ModelBackend> Chain<B> {
    /// The template that this chain formats.
    pub closed spec fn template(&self) -> Seq<char> {
        self.prompt_template@
    }

    /// The facade that this chain invokes.
    pub closed spec fn facade(&self) -> Llm<B> {
        *self.llm
    }

    /// Binds a template to a facade. The template is not examined here: a
    /// template that cannot be formatted fails each run.
    pub fn new_llm_chain(prompt_template: String, llm: Arc<Llm<B>>) -> (chain: Chain<B>)
        ensures
            chain.template() == prompt_template@,
            chain.facade() == *llm,
    {
        Chain { llm, prompt_template }
    }

    /// The template that this chain formats.
    pub fn prompt_template(&self) -> (template: &str)
        ensures
            template@ == self.template(),
    {
        self.prompt_template.as_str()
    }

    /// The facade that this chain invokes.
    pub fn llm(&self) -> (llm: &Llm<B>)
        ensures
            *llm == self.facade(),
    {
        &self.llm
    }

    /// Prepares one run: the formatted prompt as a single human turn, or
    /// `InvalidArgument` where the template cannot be formatted.
    pub fn run_request(&self, input: &str) -> (request: Result<GenerateRequest, LangChainError>)
        ensures
            request_view(request) == run_request(
                self.facade().model_id(),
                self.template(),
                input@,
            ),
    {
        match format_prompt(self.prompt_template.as_str(), input) {
            Ok(prompt) => {
                let mut messages: Vec<ConversationMessage> = Vec::new();
                messages.push(ConversationMessage { role: Role::Human, content: prompt });
                proof {
                    assert(messages.deep_view() =~= seq![human_turn(prompt@)]);
                }
                Ok(self.llm.conversation_request(messages, None))
            },
            Err(error) => Err(LangChainError::InvalidArgument(error.message())),
        }
    }

    /// Prepares a run with context: the context in its order, then the input
    /// as the last turn.
    pub fn context_request(&self, input: String, context: Vec<Message>) -> (request:
        GenerateRequest)
        ensures
            request@ == context_request(self.facade().model_id(), input@, context.deep_view()),
    {
        let ghost turns = to_messages(context.deep_view());
        let mut messages = messages_from_records(context);
        messages.push(ConversationMessage { role: Role::Human, content: input });
        proof {
            assert(messages.deep_view() =~= turns.push(human_turn(input@)));
        }
        self.llm.conversation_request(messages, None)
    }

    /// Formats the template with `input`, hands the prompt to the model as one
    /// human turn with no call options, and returns the generated text. A
    /// template that cannot be formatted fails the run before the model is
    /// asked; any other error is the boundary error of a backend failure.
    pub fn run(&self, input: String) -> (result: Result<String, LangChainError>)
        ensures
            match run_request(self.facade().model_id(), self.template(), input@) {
                Ok(request) => answers(self.facade().backend(), request, text_result_view(result)),
                Err(error) => text_result_view(result) == Err::<Seq<char>, LangChainErrorView>(
                    error,
                ),
            },
            result matches Err(error) ==> arises_from_failure(error@),
    {
        match self.run_request(input.as_str()) {
            Ok(request) => {
                let generated = self.llm.send(&request);
                let result = generated_text(generated);
                proof {
                    assert(text_result_view(result) == text_of(generate_result_view(generated)));
                }
                result
            },
            Err(error) => {
                proof {
                    let detail = error@->InvalidArgument_0;
                    assert(boundary_error(LlmErrorView::InvalidArgument(detail)) == error@);
                }
                Err(error)
            },
        }
    }

    /// Hands the context and then `input`, as the last human turn, to the model
    /// with no call options, and returns the generated text. Every error is the
    /// boundary error of a backend failure.
    pub fn run_with_context(&self, input: String, context: Vec<Message>) -> (result: Result<
        String,
        LangChainError,
    >)
        ensures
            answers(
                self.facade().backend(),
                context_request(self.facade().model_id(), input@, context.deep_view()),
                text_result_view(result),
            ),
            result matches Err(error) ==> arises_from_failure(error@),
    {
        let request = self.context_request(input, context);
        let generated = self.llm.send(&request);
        let result = generated_text(generated);
        proof {
            assert(text_result_view(result) == text_of(generate_result_view(generated)));
        }
        result
    }
}

/// In a run with context the order of the context is kept and the input is the
/// last turn, spoken by the human side.
pub proof fn lemma_context_order(model: Seq<char>, input: Seq<char>, context: Seq<MessageView>)
    ensures
        context_request(model, input, context).messages.len() == context.len() + 1,
        context_request(model, input, context).messages.last() == human_turn(input),
        forall|i: int|
            0 <= i < context.len() ==> #[trigger] context_request(model, input, context).messages[i]
                == to_message(context[i]),
{
}

/// A run whose template is plain text, one placeholder and plain text again
/// hands the model exactly one human turn: the first text, the input and the
/// second text.
pub proof fn lemma_run_hands_over_the_formatted_prompt(
    model: Seq<char>,
    prefix: Seq<char>,
    suffix: Seq<char>,
    input: Seq<char>,
)
    requires
        brace_free(prefix, 0, prefix.len() as int),
        brace_free(suffix, 0, suffix.len() as int),
    ensures
        run_request(model, prefix + "{input}"@ + suffix, input) == Ok::<
            GenerateRequestView,
            LangChainErrorView,
        >(
            GenerateRequestView {
                model,
                messages: seq![human_turn(prefix + input + suffix)],
                options: no_overrides(),
            },
        ),
{
    lemma_single_placeholder(prefix, suffix, input);
}

} // verus!
