//! The ways a caller's arguments can be refused before the engine is asked,
//! and the message each refusal is reported with.
use vstd::prelude::*;
use crate::text::{debug_text, plain_text, quoted, str_debug};

verus! {

/// An argument that no engine call can be made from.  Each refusal that
/// concerns a name or an id carries the text the caller passed.
#[derive(Debug)]
pub enum ArgumentError {
    /// The `neural` embedder was asked for without the API base URL, the API
    /// key and the model all given.
    NeuralEmbedderNeedsApi,
    /// The embedder name is none of `auto`, `hash`, `neural`.
    UnknownEmbedder(String),
    /// The extractor name is none of `hash`, `neural`, `auto`.
    UnknownExtractor(String),
    /// The feedback signal name is not one of the four signals.
    UnknownSignal(String),
    /// The consolidation scope name is not one of the four scopes.
    UnknownScope(String),
    /// A memory id to delete does not read as a decimal integer.
    InvalidMemoryId(String),
}

impl ArgumentError {
    /// The fixed sentence that opens the refusal's message.
    pub open spec fn sentence(self) -> Seq<char> {
        match self {
            ArgumentError::NeuralEmbedderNeedsApi =>
                "embedder='neural' requires api_base_url, api_key, and model"@,
            ArgumentError::UnknownEmbedder(_) => "embedder must be 'auto', 'hash' or 'neural', got "@,
            ArgumentError::UnknownExtractor(_) => "extractor must be 'hash', 'neural' or 'auto', got "@,
            ArgumentError::UnknownSignal(_) =>
                "signal must be one of 'referenced', 'user_confirmed_correct', 'task_succeeded', 'user_rejected', got "@,
            ArgumentError::UnknownScope(_) =>
                "scope must be one of 'incremental', 'full', 'edges_only', 'reindex', got "@,
            ArgumentError::InvalidMemoryId(_) => "memory_id must be a decimal integer, got "@,
        }
    }

    /// The caller's text that was refused, when the refusal concerns one.
    pub open spec fn refused_text(self) -> Option<Seq<char>> {
        match self {
            ArgumentError::NeuralEmbedderNeedsApi => None,
            ArgumentError::UnknownEmbedder(n) => Some(n@),
            ArgumentError::UnknownExtractor(n) => Some(n@),
            ArgumentError::UnknownSignal(n) => Some(n@),
            ArgumentError::UnknownScope(n) => Some(n@),
            ArgumentError::InvalidMemoryId(n) => Some(n@),
        }
    }

    /// The message of the refusal: the fixed sentence, followed for a refused
    /// name or id by the caller's text in its quoted `Debug` form.
    pub open spec fn message_text(self) -> Seq<char> {
        match self.refused_text() {
            Some(t) => self.sentence() + debug_text(t),
            None => self.sentence(),
        }
    }

    /// The message the refusal is reported with.
    pub fn message(&self) -> (r: String)
        ensures
            r@ == self.message_text(),
            self.refused_text() matches Some(t) ==> (plain_text(t) ==> r@ == self.sentence()
                + quoted(t)),
    {
        let (fixed, text) = match self {
            ArgumentError::NeuralEmbedderNeedsApi => {
                return "embedder='neural' requires api_base_url, api_key, and model".to_owned();
            },
            ArgumentError::UnknownEmbedder(n) => (
                "embedder must be 'auto', 'hash' or 'neural', got ",
                n,
            ),
            ArgumentError::UnknownExtractor(n) => (
                "extractor must be 'hash', 'neural' or 'auto', got ",
                n,
            ),
            ArgumentError::UnknownSignal(n) => (
                "signal must be one of 'referenced', 'user_confirmed_correct', 'task_succeeded', 'user_rejected', got ",
                n,
            ),
            ArgumentError::UnknownScope(n) => (
                "scope must be one of 'incremental', 'full', 'edges_only', 'reindex', got ",
                n,
            ),
            ArgumentError::InvalidMemoryId(n) => ("memory_id must be a decimal integer, got ", n),
        };
        let mut m = fixed.to_owned();
        let quoted = str_debug(text.as_str());
        m.append(quoted.as_str());
        m
    }

    /// A wrong combination of arguments (reported as a type error) rather
    /// than an unknown value (reported as a value error).
    pub fn is_type_error(&self) -> (r: bool)
        ensures
            r == (self is NeuralEmbedderNeedsApi),
    {
        match self {
            ArgumentError::NeuralEmbedderNeedsApi => true,
            _ => false,
        }
    }
}

/// The sentence each refusal opens with, and the refused text each carries.
pub proof fn lemma_refusal_sentences(n: String)
    ensures
        ArgumentError::NeuralEmbedderNeedsApi.sentence()
            == "embedder='neural' requires api_base_url, api_key, and model"@,
        ArgumentError::NeuralEmbedderNeedsApi.refused_text() is None,
        ArgumentError::UnknownEmbedder(n).sentence()
            == "embedder must be 'auto', 'hash' or 'neural', got "@,
        ArgumentError::UnknownEmbedder(n).refused_text() == Some(n@),
        ArgumentError::UnknownExtractor(n).sentence()
            == "extractor must be 'hash', 'neural' or 'auto', got "@,
        ArgumentError::UnknownExtractor(n).refused_text() == Some(n@),
        ArgumentError::UnknownSignal(n).sentence()
            == "signal must be one of 'referenced', 'user_confirmed_correct', 'task_succeeded', 'user_rejected', got "@,
        ArgumentError::UnknownSignal(n).refused_text() == Some(n@),
        ArgumentError::UnknownScope(n).sentence()
            == "scope must be one of 'incremental', 'full', 'edges_only', 'reindex', got "@,
        ArgumentError::UnknownScope(n).refused_text() == Some(n@),
        ArgumentError::InvalidMemoryId(n).sentence() == "memory_id must be a decimal integer, got "@,
        ArgumentError::InvalidMemoryId(n).refused_text() == Some(n@),
{
}

} // verus!
