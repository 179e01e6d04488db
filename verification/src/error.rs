//! The closed set of errors that may cross the boundary, and the rule that maps
//! every internal failure onto it.

use crate::text::{
    chars_of, contains, contains_chars, is_decimal_digit, is_digit, occurs_at,
};
use vstd::prelude::*;

verus! {

/// A failure raised inside the orchestration core, before it is classified.
#[derive(Debug, Clone, PartialEq, Eq)]
pub enum LlmError {
    /// The transport to the model provider failed; carries the failure's text.
    RequestError(String),
    /// A provider response could not be deserialized; carries the failure's text.
    SerdeError(String),
    /// A provider response held no content; carries the explanation.
    ContentNotFound(String),
    /// An argument was rejected before any request was made; carries the validation message.
    InvalidArgument(String),
    /// Any other failure, held as its debug rendering.
    Other(String),
}

/// The mathematical model of an [`LlmError`].
pub enum LlmErrorView {
    RequestError(Seq<char>),
    SerdeError(Seq<char>),
    ContentNotFound(Seq<char>),
    InvalidArgument(Seq<char>),
    Other(Seq<char>),
}

impl View for LlmError {
    type V = LlmErrorView;

    open spec fn view(&self) -> LlmErrorView {
        match self {
            LlmError::RequestError(detail) => LlmErrorView::RequestError(detail@),
            LlmError::SerdeError(detail) => LlmErrorView::SerdeError(detail@),
            LlmError::ContentNotFound(detail) => LlmErrorView::ContentNotFound(detail@),
            LlmError::InvalidArgument(detail) => LlmErrorView::InvalidArgument(detail@),
            LlmError::Other(rendering) => LlmErrorView::Other(rendering@),
        }
    }
}

/// The errors a boundary function can return.
#[derive(Debug, Clone, PartialEq, Eq)]
pub enum LangChainError {
    InvalidModel,
    ApiError(String),
    NetworkError(String),
    InvalidArgument(String),
    TokenLimitExceeded,
    Unauthorized,
    ServerError(String),
    UnknownError(String),
}

/// The mathematical model of a [`LangChainError`].
pub enum LangChainErrorView {
    InvalidModel,
    ApiError(Seq<char>),
    NetworkError(Seq<char>),
    InvalidArgument(Seq<char>),
    TokenLimitExceeded,
    Unauthorized,
    ServerError(Seq<char>),
    UnknownError(Seq<char>),
}

impl View for LangChainError {
    type V = LangChainErrorView;

    open spec fn view(&self) -> LangChainErrorView {
        match self {
            LangChainError::InvalidModel => LangChainErrorView::InvalidModel,
            LangChainError::ApiError(detail) => LangChainErrorView::ApiError(detail@),
            LangChainError::NetworkError(detail) => LangChainErrorView::NetworkError(detail@),
            LangChainError::InvalidArgument(detail) => LangChainErrorView::InvalidArgument(detail@),
            LangChainError::TokenLimitExceeded => LangChainErrorView::TokenLimitExceeded,
            LangChainError::Unauthorized => LangChainErrorView::Unauthorized,
            LangChainError::ServerError(detail) => LangChainErrorView::ServerError(detail@),
            LangChainError::UnknownError(detail) => LangChainErrorView::UnknownError(detail@),
        }
    }
}

/// A server-class status stands in `detail` at position `at`: a number of
/// exactly three digits whose leading digit is `5`. No digit stands before the
/// `5`, two digits follow it, and no digit follows those.
pub open spec fn server_status_at(detail: Seq<char>, at: int) -> bool {
    &&& 0 <= at
    &&& at + 3 <= detail.len()
    &&& detail[at] == '5'
    &&& is_digit(detail[at + 1])
    &&& is_digit(detail[at + 2])
    &&& (at == 0 || !is_digit(detail[at - 1]))
    &&& (at + 3 == detail.len() || !is_digit(detail[at + 3]))
}

/// A server-class status stands somewhere in `detail`.
pub open spec fn holds_server_status(detail: Seq<char>) -> bool {
    exists|at: int| server_status_at(detail, at)
}

/// How a transport failure is classified from its text alone. The tests are made
/// in this order, the most specific first: "401" anywhere in the text, then
/// "429" anywhere in it, then a server-class status anywhere in it, which is a
/// number of three digits with a leading `5`. A `5` elsewhere, as the one that
/// ends `405`, is no such status. The rule is a heuristic, and its order is
/// part of it.
pub open spec fn classify_request(detail: Seq<char>) -> LangChainErrorView {
    if contains(detail, "401"@) {
        LangChainErrorView::Unauthorized
    } else if contains(detail, "429"@) {
        LangChainErrorView::TokenLimitExceeded
    } else if holds_server_status(detail) {
        LangChainErrorView::ServerError(detail)
    } else {
        LangChainErrorView::ApiError(detail)
    }
}

/// The boundary error that stands for an internal failure.
pub open spec fn boundary_error(failure: LlmErrorView) -> LangChainErrorView {
    match failure {
        LlmErrorView::RequestError(detail) => classify_request(detail),
        LlmErrorView::SerdeError(detail) => LangChainErrorView::ApiError(detail),
        LlmErrorView::ContentNotFound(detail) => LangChainErrorView::ApiError(detail),
        LlmErrorView::InvalidArgument(detail) => LangChainErrorView::InvalidArgument(detail),
        LlmErrorView::Other(rendering) => LangChainErrorView::UnknownError(rendering),
    }
}

/// The error that a transport failure with this text is classified as. It says
/// the same as [`classify_request`], and also that the text itself is carried over.
pub open spec fn classified_request(detail: String) -> LangChainError {
    if contains(detail@, "401"@) {
        LangChainError::Unauthorized
    } else if contains(detail@, "429"@) {
        LangChainError::TokenLimitExceeded
    } else if holds_server_status(detail@) {
        LangChainError::ServerError(detail)
    } else {
        LangChainError::ApiError(detail)
    }
}

/// An error that some internal failure is mapped to.
pub open spec fn arises_from_failure(error: LangChainErrorView) -> bool {
    exists|failure: LlmErrorView| boundary_error(failure) == error
}

/// The text that describes a boundary error to a person.
pub open spec fn message_text(error: LangChainErrorView) -> Seq<char> {
    match error {
        LangChainErrorView::InvalidModel => "Invalid model specified"@,
        LangChainErrorView::ApiError(detail) => "API error occurred: "@ + detail,
        LangChainErrorView::NetworkError(detail) => "Network error occurred: "@ + detail,
        LangChainErrorView::InvalidArgument(detail) => "Invalid argument: "@ + detail,
        LangChainErrorView::TokenLimitExceeded => "Token limit exceeded"@,
        LangChainErrorView::Unauthorized => "Unauthorized, check your API keys"@,
        LangChainErrorView::ServerError(detail) => "Server error: "@ + detail,
        LangChainErrorView::UnknownError(detail) => "Unknown error: "@ + detail,
    }
}

/// Tests whether a server-class status stands somewhere in `text`.
pub fn finds_server_status(text: &Vec<char>) -> (found: bool)
    ensures
        found == holds_server_status(text@),
{
    let n = text.len();
    if n < 3 {
        return false;
    }
    let mut at: usize = 0;
    while at <= n - 3
        invariant
            3 <= n == text.len(),
            at <= n - 2,
            forall|j: int| 0 <= j < at ==> !server_status_at(text@, j),
        decreases n - at,
    {
        let three_digits = text[at] == '5' && is_decimal_digit(text[at + 1]) && is_decimal_digit(
            text[at + 2],
        );
        let none_before = at == 0 || !is_decimal_digit(text[at - 1]);
        let none_after = at + 3 == n || !is_decimal_digit(text[at + 3]);
        if three_digits && none_before && none_after {
            assert(server_status_at(text@, at as int));
            return true;
        }
        at += 1;
    }
    false
}

/// Classifies a transport failure by the text that describes it.
pub fn classify_request_failure(detail: String) -> (error: LangChainError)
    ensures
        error == classified_request(detail),
        error@ == classify_request(detail@),
{
    let text = chars_of(detail.as_str());
    if contains_chars(&text, &chars_of("401")) {
        LangChainError::Unauthorized
    } else if contains_chars(&text, &chars_of("429")) {
        LangChainError::TokenLimitExceeded
    } else if finds_server_status(&text) {
        LangChainError::ServerError(detail)
    } else {
        LangChainError::ApiError(detail)
    }
}

impl vstd::std_specs::convert::FromSpecImpl<LlmError> for LangChainError {
    open spec fn obeys_from_spec() -> bool {
        true
    }

    open spec fn from_spec(failure: LlmError) -> LangChainError {
        match failure {
            LlmError::RequestError(detail) => classified_request(detail),
            LlmError::SerdeError(detail) => LangChainError::ApiError(detail),
            LlmError::ContentNotFound(detail) => LangChainError::ApiError(detail),
            LlmError::InvalidArgument(detail) => LangChainError::InvalidArgument(detail),
            LlmError::Other(rendering) => LangChainError::UnknownError(rendering),
        }
    }
}

impl From<LlmError> for LangChainError {
    /// Maps an internal failure onto the boundary taxonomy. The detail text is
    /// carried over unchanged wherever the resulting error has one.
    fn from(failure: LlmError) -> (error: LangChainError)
        ensures
            error@ == boundary_error(failure@),
    {
        match failure {
            LlmError::RequestError(detail) => classify_request_failure(detail),
            LlmError::SerdeError(detail) => LangChainError::ApiError(detail),
            LlmError::ContentNotFound(detail) => LangChainError::ApiError(detail),
            LlmError::InvalidArgument(detail) => LangChainError::InvalidArgument(detail),
            LlmError::Other(rendering) => LangChainError::UnknownError(rendering),
        }
    }
}

impl LangChainError {
    /// The text that describes this error to a person.
    pub fn message(&self) -> (text: String)
        ensures
            text@ == message_text(self@),
    {
        match self {
            LangChainError::InvalidModel => "Invalid model specified".to_string(),
            LangChainError::ApiError(detail) => "API error occurred: ".to_string().concat(
                detail.as_str(),
            ),
            LangChainError::NetworkError(detail) => "Network error occurred: ".to_string().concat(
                detail.as_str(),
            ),
            LangChainError::InvalidArgument(detail) => "Invalid argument: ".to_string().concat(
                detail.as_str(),
            ),
            LangChainError::TokenLimitExceeded => "Token limit exceeded".to_string(),
            LangChainError::Unauthorized => "Unauthorized, check your API keys".to_string(),
            LangChainError::ServerError(detail) => "Server error: ".to_string().concat(
                detail.as_str(),
            ),
            LangChainError::UnknownError(detail) => "Unknown error: ".to_string().concat(
                detail.as_str(),
            ),
        }
    }
}

/// A text in which "500" stands with no digit before it and none after it
/// holds a server-class status.
pub proof fn lemma_status_500_is_server_class(detail: Seq<char>, at: int)
    requires
        occurs_at(detail, "500"@, at),
        at == 0 || !is_digit(detail[at - 1]),
        at + 3 == detail.len() || !is_digit(detail[at + 3]),
    ensures
        holds_server_status(detail),
{
    reveal_strlit("500");
    let found = detail.subrange(at, at + 3);
    assert(found[0] == '5' && found[1] == '0' && found[2] == '0');
    assert(server_status_at(detail, at));
}

/// A `5` that follows a digit leads no status: no server-class status stands
/// where a digit stands just before.
pub proof fn lemma_no_status_after_a_digit(detail: Seq<char>, at: int)
    requires
        0 < at < detail.len(),
        is_digit(detail[at - 1]),
    ensures
        !server_status_at(detail, at),
{
}

/// The order of classification. A transport failure whose text holds "401" is
/// `Unauthorized`, whatever else the text holds, "429" included. One that holds
/// "429" and no "401" is `TokenLimitExceeded`. One that holds neither, and
/// holds a server-class status, is a `ServerError` with the text as its detail.
/// One that holds none of the three is an `ApiError` with the text as its detail.
pub proof fn lemma_classification_order(detail: Seq<char>)
    ensures
        contains(detail, "401"@) ==> classify_request(detail)
            == LangChainErrorView::Unauthorized,
        !contains(detail, "401"@) && contains(detail, "429"@) ==> classify_request(detail)
            == LangChainErrorView::TokenLimitExceeded,
        !contains(detail, "401"@) && !contains(detail, "429"@) && holds_server_status(detail)
            ==> classify_request(detail) == LangChainErrorView::ServerError(detail),
        !contains(detail, "401"@) && !contains(detail, "429"@) && !holds_server_status(detail)
            ==> classify_request(detail) == LangChainErrorView::ApiError(detail),
{
}

/// A transport failure whose text holds "500" as a status of its own, and
/// neither "401" nor "429", is a `ServerError` with the text as its detail.
pub proof fn lemma_status_500_is_a_server_error(detail: Seq<char>, at: int)
    requires
        !contains(detail, "401"@),
        !contains(detail, "429"@),
        occurs_at(detail, "500"@, at),
        at == 0 || !is_digit(detail[at - 1]),
        at + 3 == detail.len() || !is_digit(detail[at + 3]),
    ensures
        classify_request(detail) == LangChainErrorView::ServerError(detail),
{
    lemma_status_500_is_server_class(detail, at);
}

/// Every internal failure is mapped to exactly one boundary error, and that
/// error is never `InvalidModel` nor `NetworkError`.
pub proof fn lemma_failures_never_map_to_reserved_kinds(failure: LlmErrorView)
    ensures
        arises_from_failure(boundary_error(failure)),
        !(boundary_error(failure) is InvalidModel),
        !(boundary_error(failure) is NetworkError),
{
}

} // verus!
