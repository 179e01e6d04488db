//! A synchronous, flat boundary over a language-model orchestration core.
//!
//! Only plain data crosses the boundary: strings, optional numbers and ordered
//! sequences of message records. This library holds the rules of that boundary:
//! how messages are written as records and read back, how every internal
//! failure becomes one of a small set of errors, how a model is selected by
//! name, how a prompt template is formatted, and how a chain composes these
//! into one request to a model. What a model or an embedding backend returns is
//! outside of it, and every promise made here holds whatever they return.

use vstd::prelude::*;

pub mod chain;
pub mod embedding;
pub mod error;
pub mod llm;
pub mod message;
pub mod options;
pub mod prompt;
pub mod text;

pub use error::LangChainError;
pub use llm::invoke_llm;
pub use message::Message;

verus! {

/// The tag under which this library's types are registered with a binding
/// generator. It holds nothing.
#[derive(Debug, Clone, Copy, PartialEq, Eq, Structural)]
pub struct UniFfiTag;

/// The version of this library, as a semantic version string.
pub open spec fn version_text() -> Seq<char> {
    "4.6.0"@
}

/// Returns the library's own version.
pub fn get_version() -> (version: String)
    ensures
        version@ == version_text(),
{
    "4.6.0".to_string()
}

} // verus!
