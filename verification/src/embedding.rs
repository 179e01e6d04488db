//! The embedding facade: texts in, vectors out, every failure one kind of error.

use crate::error::{LangChainError, LangChainErrorView};
use vstd::prelude::*;

verus! {

/// The model of what an embedding backend answers: the value as it is, or the
/// text of the failure.
pub open spec fn embedding_outcome_view<T>(outcome: Result<T, String>) -> Result<T, Seq<char>> {
    match outcome {
        Ok(value) => Ok(value),
        Err(detail) => Err(detail@),
    }
}

/// What an embedding returns across the boundary, for each outcome of the
/// backend: the value as it came, or an `ApiError` with the failure's text.
/// No failure is classified any further.
pub open spec fn embedding_result<T>(outcome: Result<T, Seq<char>>) -> Result<
    T,
    LangChainErrorView,
> {
    match outcome {
        Ok(value) => Ok(value),
        Err(detail) => Err(LangChainErrorView::ApiError(detail)),
    }
}

/// The model of what an embedding returns across the boundary.
pub open spec fn embedding_result_view<T>(result: Result<T, LangChainError>) -> Result<
    T,
    LangChainErrorView,
> {
    match result {
        Ok(value) => Ok(value),
        Err(error) => Err(error@),
    }
}

/// Brings the outcome of an embedding across the boundary.
pub fn complete_embedding<T>(outcome: Result<T, String>) -> (result: Result<T, LangChainError>)
    ensures
        embedding_result_view(result) == embedding_result(embedding_outcome_view(outcome)),
{
    match outcome {
        Ok(value) => Ok(value),
        Err(detail) => Err(LangChainError::ApiError(detail)),
    }
}

/// An embedding backend: the capability to turn texts into vectors. A failure
/// is given as the text that describes it. The facade never looks into a
/// vector, so the backend chooses the type.
///
/// A backend may say which answers it gives to which texts, through
/// `may_embed_query` and `may_embed_documents`; the facade's contracts then
/// speak of exactly those answers. A backend that says nothing admits every
/// answer, and so does every backend that is written outside of verified code.
pub trait EmbeddingBackend {
    /// The vector that stands for one text.
    type Vector;

    /// `outcome` is an answer that this backend may give for one `text`.
    open spec fn may_embed_query(
        &self,
        text: Seq<char>,
        outcome: Result<Self::Vector, Seq<char>>,
    ) -> bool {
        true
    }

    /// `outcome` is an answer that this backend may give for several `texts`.
    open spec fn may_embed_documents(
        &self,
        texts: Seq<Seq<char>>,
        outcome: Result<Vec<Self::Vector>, Seq<char>>,
    ) -> bool {
        true
    }

    /// Embeds one text.
    fn embed_query(&self, text: &str) -> (outcome: Result<Self::Vector, String>)
        ensures
            self.may_embed_query(text@, embedding_outcome_view(outcome)),
    ;

    /// Embeds several texts, one vector for each.
    fn embed_documents(&self, texts: &Vec<String>) -> (outcome: Result<Vec<Self::Vector>, String>)
        ensures
            self.may_embed_documents(texts.deep_view(), embedding_outcome_view(outcome)),
    ;
}

/// The embedding facade.
pub struct Embedder<E: EmbeddingBackend> {
    backend: E,
    model_name: String,
}

impl<E: EmbeddingBackend> Embedder<E> {
    /// The model name that this facade was made with.
    pub closed spec fn name(&self) -> Seq<char> {
        self.model_name@
    }

    /// The backend that this facade hands its texts to.
    pub closed spec fn backend(&self) -> E {
        self.backend
    }

    /// Makes a facade. The name is kept as given; it does not yet select among
    /// backends, and callers should not rely on that.
    pub fn new(model_name: String, backend: E) -> (embedder: Embedder<E>)
        ensures
            embedder.name() == model_name@,
            embedder.backend() == backend,
    {
        Embedder { backend, model_name }
    }

    /// The model name that this facade was made with.
    pub fn model_name(&self) -> (name: &str)
        ensures
            name@ == self.name(),
    {
        self.model_name.as_str()
    }

    /// Embeds one text: the backend is handed the text, once, and its vector
    /// comes back as it is. Every failure comes back as an `ApiError` with the
    /// failure's text.
    pub fn embed_query(&self, text: String) -> (result: Result<E::Vector, LangChainError>)
        ensures
            exists|outcome: Result<E::Vector, Seq<char>>|
                #![trigger embedding_result(outcome)]
                self.backend().may_embed_query(text@, outcome) && embedding_result_view(result)
                    == embedding_result(outcome),
            result matches Err(error) ==> error@ is ApiError,
    {
        let outcome = self.backend.embed_query(text.as_str());
        let result = complete_embedding(outcome);
        proof {
            assert(embedding_result_view(result) == embedding_result(
                embedding_outcome_view(outcome),
            ));
        }
        result
    }

    /// Embeds several texts: the backend is handed the texts in their order,
    /// once, and its vectors come back as they are. Every failure comes back
    /// as an `ApiError` with the failure's text.
    pub fn embed_documents(&self, texts: Vec<String>) -> (result: Result<
        Vec<E::Vector>,
        LangChainError,
    >)
        ensures
            exists|outcome: Result<Vec<E::Vector>, Seq<char>>|
                #![trigger embedding_result(outcome)]
                self.backend().may_embed_documents(texts.deep_view(), outcome)
                    && embedding_result_view(result) == embedding_result(outcome),
            result matches Err(error) ==> error@ is ApiError,
    {
        let outcome = self.backend.embed_documents(&texts);
        let result = complete_embedding(outcome);
        proof {
            assert(embedding_result_view(result) == embedding_result(
                embedding_outcome_view(outcome),
            ));
        }
        result
    }
}

} // verus!
