//! The engine arguments that each binding call builds from what its caller
//! passes: the store configuration of `open`, the signal of a feedback, the
//! scope of a consolidation and the page of a listing.
use vstd::prelude::*;
use vstd::utf8::is_ascii_chars;
use crate::content::{content_kind_of_lowercase, parse_content_type, ContentKind};
use crate::error::ArgumentError;
use crate::ids::{cursor_of, feedback_memory_ids, opt_text, readable_ids, texts};
use crate::decimal::parse_u128;
use crate::text::{ascii_lowercase, str_eq, unicode_lowercase};

verus! {

/// Vector size of the offline hash embedder.
pub const HASH_DIMENSIONS: usize = 256;

/// Vector size of the API-based embedder.
pub const NEURAL_DIMENSIONS: usize = 1536;

/// Largest page a listing returns.
pub const MAX_PAGE_SIZE: usize = 100;

/// Where the store lives when the caller names no path.
pub open spec fn default_store_dir() -> Seq<char> {
    "./hippmem_data"@
}

/// The embedder the engine is opened with.
#[derive(Debug)]
pub enum EmbedderSpec {
    /// API-based when an API key is found in the environment, hash otherwise.
    Auto,
    /// Offline SimHash embedder.
    Hash { dimensions: usize },
    /// OpenAI-compatible API embedder.
    Neural { base_url: String, model: String, api_key: Option<String>, dimensions: usize },
}

/// The backend of the engine's extractor.
#[derive(Clone, Copy, Debug, PartialEq, Eq, Structural)]
pub enum ExtractorChoice {
    /// Deterministic rules only.
    Deterministic,
    /// OpenAI-compatible structured extraction.
    Api,
    /// The API when a key is found in the environment, the rules otherwise.
    Auto,
}

/// Everything `open` decides before the store is opened.
#[derive(Debug)]
pub struct OpenConfig {
    pub store_dir: String,
    pub embedder: EmbedderSpec,
    pub extractor: ExtractorChoice,
}

/// The embedder names `open` knows.
pub open spec fn known_embedder(name: Seq<char>) -> bool {
    name == "auto"@ || name == "hash"@ || name == "neural"@
}

/// The `neural` embedder is named but one of its three API settings is absent.
pub open spec fn neural_settings_missing(
    name: Seq<char>,
    api_base_url: Option<String>,
    api_key: Option<String>,
    model: Option<String>,
) -> bool {
    name == "neural"@ && (api_base_url is None || api_key is None || model is None)
}

/// The embedder a known name stands for, with its settings.
pub open spec fn embedder_of(
    name: Seq<char>,
    api_base_url: Option<String>,
    api_key: Option<String>,
    model: Option<String>,
) -> EmbedderSpec {
    if name == "auto"@ {
        EmbedderSpec::Auto
    } else if name == "hash"@ {
        EmbedderSpec::Hash { dimensions: HASH_DIMENSIONS }
    } else {
        match (api_base_url, api_key, model) {
            (Some(b), Some(k), Some(m)) => EmbedderSpec::Neural {
                base_url: b,
                model: m,
                api_key: Some(k),
                dimensions: NEURAL_DIMENSIONS,
            },
            _ => EmbedderSpec::Auto,
        }
    }
}

/// The extractor backend an extractor name stands for.
pub open spec fn extractor_of(name: Seq<char>) -> Option<ExtractorChoice> {
    if name == "hash"@ {
        Some(ExtractorChoice::Deterministic)
    } else if name == "neural"@ {
        Some(ExtractorChoice::Api)
    } else if name == "auto"@ {
        Some(ExtractorChoice::Auto)
    } else {
        None
    }
}

/// The store directory: the caller's path, or the default one.
pub open spec fn store_dir_of(path: Option<String>) -> Seq<char> {
    match path {
        Some(p) => p@,
        None => default_store_dir(),
    }
}

/// Decides how the engine is opened.  The embedder is checked first (an
/// unknown name, then a `neural` one without its three API settings), then
/// the extractor; when both are known the configuration holds the store
/// directory, the embedder with its settings and the extractor backend.
pub fn open_config(
    path: Option<String>,
    embedder: &str,
    extractor: &str,
    api_base_url: Option<String>,
    api_key: Option<String>,
    model: Option<String>,
) -> (r: Result<OpenConfig, ArgumentError>)
    ensures
        !known_embedder(embedder@) ==> (r matches Err(ArgumentError::UnknownEmbedder(n))
            && n@ == embedder@),
        known_embedder(embedder@) && neural_settings_missing(
            embedder@,
            api_base_url,
            api_key,
            model,
        ) ==> r matches Err(ArgumentError::NeuralEmbedderNeedsApi),
        known_embedder(embedder@) && !neural_settings_missing(
            embedder@,
            api_base_url,
            api_key,
            model,
        ) && extractor_of(extractor@) is None ==> (r matches Err(
            ArgumentError::UnknownExtractor(n),
        ) && n@ == extractor@),
        known_embedder(embedder@) && !neural_settings_missing(
            embedder@,
            api_base_url,
            api_key,
            model,
        ) && extractor_of(extractor@) is Some ==> (r matches Ok(c) && c.store_dir@
            == store_dir_of(path) && c.embedder == embedder_of(
            embedder@,
            api_base_url,
            api_key,
            model,
        ) && Some(c.extractor) == extractor_of(extractor@)),
        embedder@ == "neural"@ && (api_base_url is None || api_key is None || model is None)
            ==> r matches Err(ArgumentError::NeuralEmbedderNeedsApi),
        r matches Ok(c) ==> (embedder@ == "neural"@ ==> (api_base_url matches Some(b)
            && api_key matches Some(k) && model matches Some(m) && c.embedder == (
        EmbedderSpec::Neural { base_url: b, model: m, api_key: Some(k), dimensions: 1536 }))),
        r matches Ok(c) ==> (path matches Some(p) ==> c.store_dir@ == p@),
        r matches Ok(c) ==> (path is None ==> c.store_dir@ == "./hippmem_data"@),
{
    let ghost (b0, k0, m0) = (api_base_url, api_key, model);
    proof {
        reveal_strlit("auto");
        reveal_strlit("hash");
        reveal_strlit("neural");
        assert("auto"@.len() != "neural"@.len());
        assert("hash"@.len() != "neural"@.len());
    }
    let embedder_spec = if str_eq(embedder, "auto") {
        EmbedderSpec::Auto
    } else if str_eq(embedder, "hash") {
        EmbedderSpec::Hash { dimensions: HASH_DIMENSIONS }
    } else if str_eq(embedder, "neural") {
        match (api_base_url, api_key, model) {
            (Some(base_url), Some(key), Some(model_name)) => EmbedderSpec::Neural {
                base_url,
                model: model_name,
                api_key: Some(key),
                dimensions: NEURAL_DIMENSIONS,
            },
            _ => {
                return Err(ArgumentError::NeuralEmbedderNeedsApi);
            },
        }
    } else {
        return Err(ArgumentError::UnknownEmbedder(embedder.to_owned()));
    };
    assert(embedder_spec == embedder_of(embedder@, b0, k0, m0));
    let extractor_choice = if str_eq(extractor, "hash") {
        ExtractorChoice::Deterministic
    } else if str_eq(extractor, "neural") {
        ExtractorChoice::Api
    } else if str_eq(extractor, "auto") {
        ExtractorChoice::Auto
    } else {
        return Err(ArgumentError::UnknownExtractor(extractor.to_owned()));
    };
    let store_dir = match path {
        Some(p) => p,
        None => "./hippmem_data".to_owned(),
    };
    Ok(OpenConfig { store_dir, embedder: embedder_spec, extractor: extractor_choice })
}

/// How a caller used the memories of a retrieval.
#[derive(Clone, Copy, Debug, PartialEq, Eq, Structural)]
pub enum Signal {
    Referenced,
    UserConfirmedCorrect,
    TaskSucceeded,
    UserRejected,
}

/// The signal a feedback signal name stands for.
pub open spec fn signal_of(name: Seq<char>) -> Option<Signal> {
    if name == "referenced"@ {
        Some(Signal::Referenced)
    } else if name == "user_confirmed_correct"@ {
        Some(Signal::UserConfirmedCorrect)
    } else if name == "task_succeeded"@ {
        Some(Signal::TaskSucceeded)
    } else if name == "user_rejected"@ {
        Some(Signal::UserRejected)
    } else {
        None
    }
}

/// The signal a feedback signal name stands for, or its refusal.
pub fn parse_signal(name: &str) -> (r: Result<Signal, ArgumentError>)
    ensures
        signal_of(name@) matches Some(s) ==> r == Ok::<Signal, ArgumentError>(s),
        signal_of(name@) is None ==> (r matches Err(ArgumentError::UnknownSignal(n)) && n@
            == name@),
{
    if str_eq(name, "referenced") {
        Ok(Signal::Referenced)
    } else if str_eq(name, "user_confirmed_correct") {
        Ok(Signal::UserConfirmedCorrect)
    } else if str_eq(name, "task_succeeded") {
        Ok(Signal::TaskSucceeded)
    } else if str_eq(name, "user_rejected") {
        Ok(Signal::UserRejected)
    } else {
        Err(ArgumentError::UnknownSignal(name.to_owned()))
    }
}

/// The arguments of a feedback call.
#[derive(Debug)]
pub struct FeedbackRequest {
    pub retrieval_id: u64,
    pub memory_ids: Vec<u128>,
    pub signal: Signal,
}

/// Builds a feedback call: the signal must be known; of the memory ids, those
/// that read as decimal integers are kept, in order, and the others dropped.
pub fn feedback_request(retrieval_id: u64, used_memory_ids: &Vec<String>, signal: &str) -> (r:
    Result<FeedbackRequest, ArgumentError>)
    ensures
        signal_of(signal@) is None ==> (r matches Err(ArgumentError::UnknownSignal(n)) && n@
            == signal@),
        signal_of(signal@) matches Some(s) ==> (r matches Ok(q) && q.retrieval_id == retrieval_id
            && q.signal == s && q.memory_ids@ == readable_ids(texts(used_memory_ids@))),
{
    let s = match parse_signal(signal) {
        Ok(s) => s,
        Err(e) => {
            return Err(e);
        },
    };
    let memory_ids = feedback_memory_ids(used_memory_ids);
    Ok(FeedbackRequest { retrieval_id, memory_ids, signal: s })
}

/// How much of the memory graph a consolidation works on.
#[derive(Clone, Copy, Debug, PartialEq, Eq, Structural)]
pub enum ScopeKind {
    Incremental,
    Full,
    EdgesOnly,
    Reindex,
}

/// The scope a consolidation scope name stands for.
pub open spec fn scope_of(name: Seq<char>) -> Option<ScopeKind> {
    if name == "incremental"@ {
        Some(ScopeKind::Incremental)
    } else if name == "full"@ {
        Some(ScopeKind::Full)
    } else if name == "edges_only"@ {
        Some(ScopeKind::EdgesOnly)
    } else if name == "reindex"@ {
        Some(ScopeKind::Reindex)
    } else {
        None
    }
}

/// The scope a consolidation scope name stands for, or its refusal.
pub fn parse_scope(name: &str) -> (r: Result<ScopeKind, ArgumentError>)
    ensures
        scope_of(name@) matches Some(s) ==> r == Ok::<ScopeKind, ArgumentError>(s),
        scope_of(name@) is None ==> (r matches Err(ArgumentError::UnknownScope(n)) && n@
            == name@),
{
    if str_eq(name, "incremental") {
        Ok(ScopeKind::Incremental)
    } else if str_eq(name, "full") {
        Ok(ScopeKind::Full)
    } else if str_eq(name, "edges_only") {
        Ok(ScopeKind::EdgesOnly)
    } else if str_eq(name, "reindex") {
        Ok(ScopeKind::Reindex)
    } else {
        Err(ArgumentError::UnknownScope(name.to_owned()))
    }
}

/// The arguments of a listing.
#[derive(Debug)]
pub struct ListRequest {
    pub limit: usize,
    pub cursor: Option<u128>,
    pub content_type: Option<ContentKind>,
}

/// Builds a listing: the page size is capped at `MAX_PAGE_SIZE`, a cursor
/// that does not read as a decimal integer counts as none (the first page),
/// and a content-type filter is read as `parse_content_type` reads it.
pub fn list_request(limit: usize, cursor: Option<String>, content_type: Option<&str>) -> (r:
    ListRequest)
    ensures
        r.limit == (if limit <= MAX_PAGE_SIZE {
            limit
        } else {
            MAX_PAGE_SIZE
        }),
        r.cursor == cursor_of(opt_text(cursor)),
        content_type is None ==> r.content_type is None,
        content_type matches Some(s) ==> r.content_type == Some(
            content_kind_of_lowercase(unicode_lowercase(s@)),
        ),
        content_type matches Some(s) ==> (is_ascii_chars(s@) ==> r.content_type == Some(
            content_kind_of_lowercase(ascii_lowercase(s@)),
        )),
{
    let page = if limit <= MAX_PAGE_SIZE {
        limit
    } else {
        MAX_PAGE_SIZE
    };
    let c = match &cursor {
        Some(text) => parse_u128(text.as_str()),
        None => None,
    };
    let kind = match content_type {
        Some(s) => Some(parse_content_type(s)),
        None => None,
    };
    ListRequest { limit: page, cursor: c, content_type: kind }
}

/// The embedder names: `auto`, `hash` and `neural` are the only ones known;
/// `auto` opens with the automatic embedder, `hash` with the offline one of
/// 256 dimensions, and only `neural` can be refused for missing settings.
pub proof fn lemma_embedder_names(
    name: Seq<char>,
    api_base_url: Option<String>,
    api_key: Option<String>,
    model: Option<String>,
)
    ensures
        known_embedder(name) <==> (name == "auto"@ || name == "hash"@ || name == "neural"@),
        name == "auto"@ ==> embedder_of(name, api_base_url, api_key, model) == EmbedderSpec::Auto,
        name == "hash"@ ==> embedder_of(name, api_base_url, api_key, model) == (EmbedderSpec::Hash {
            dimensions: 256,
        }),
        name != "neural"@ ==> !neural_settings_missing(name, api_base_url, api_key, model),
{
    reveal_strlit("auto");
    reveal_strlit("hash");
    reveal_strlit("neural");
    assert("auto"@[0] != "hash"@[0]);
    assert("auto"@.len() != "neural"@.len());
    assert("hash"@.len() != "neural"@.len());
}

/// Opening with the `neural` embedder is refused exactly when one of the API
/// base URL, the API key and the model is absent; with all three given, the
/// embedder is the API one holding exactly those settings and 1536
/// dimensions, never another one.
pub proof fn lemma_neural_embedder_settings(
    api_base_url: Option<String>,
    api_key: Option<String>,
    model: Option<String>,
)
    ensures
        known_embedder("neural"@),
        neural_settings_missing("neural"@, api_base_url, api_key, model) <==> (api_base_url is None
            || api_key is None || model is None),
        api_base_url matches Some(b) ==> (api_key matches Some(k) ==> (model matches Some(m)
            ==> embedder_of("neural"@, api_base_url, api_key, model) == (EmbedderSpec::Neural {
            base_url: b,
            model: m,
            api_key: Some(k),
            dimensions: 1536,
        }))),
{
    reveal_strlit("auto");
    reveal_strlit("hash");
    reveal_strlit("neural");
    assert("auto"@[0] != "hash"@[0]);
    assert("auto"@.len() != "neural"@.len());
    assert("hash"@.len() != "neural"@.len());
}

/// The store is opened where the caller says: a given path, whatever it
/// looks like, is the store directory as it is; `./hippmem_data` is used
/// only when no path is given.
pub proof fn lemma_store_dir(path: Option<String>)
    ensures
        path matches Some(p) ==> store_dir_of(path) == p@,
        path is None ==> store_dir_of(path) == "./hippmem_data"@,
{
}

/// The extractor names: `hash` is the deterministic rules, `neural` the API
/// and `auto` the automatic choice; every other name is unknown.
pub proof fn lemma_extractor_names(name: Seq<char>)
    ensures
        extractor_of(name) == Some(ExtractorChoice::Deterministic) <==> name == "hash"@,
        extractor_of(name) == Some(ExtractorChoice::Api) <==> name == "neural"@,
        extractor_of(name) == Some(ExtractorChoice::Auto) <==> name == "auto"@,
        extractor_of(name) is None <==> !(name == "hash"@ || name == "neural"@ || name == "auto"@),
{
    reveal_strlit("auto");
    reveal_strlit("hash");
    reveal_strlit("neural");
    assert("auto"@[0] != "hash"@[0]);
    assert("auto"@.len() != "neural"@.len());
    assert("hash"@.len() != "neural"@.len());
}

/// The feedback signal names: each of the four names gives its own signal,
/// and every other name is unknown.
pub proof fn lemma_signal_names(name: Seq<char>)
    ensures
        signal_of(name) == Some(Signal::Referenced) <==> name == "referenced"@,
        signal_of(name) == Some(Signal::UserConfirmedCorrect) <==> name
            == "user_confirmed_correct"@,
        signal_of(name) == Some(Signal::TaskSucceeded) <==> name == "task_succeeded"@,
        signal_of(name) == Some(Signal::UserRejected) <==> name == "user_rejected"@,
        signal_of(name) is None <==> !(name == "referenced"@ || name == "user_confirmed_correct"@
            || name == "task_succeeded"@ || name == "user_rejected"@),
{
    reveal_strlit("referenced");
    reveal_strlit("user_confirmed_correct");
    reveal_strlit("task_succeeded");
    reveal_strlit("user_rejected");
    assert("referenced"@.len() != "user_confirmed_correct"@.len());
    assert("referenced"@.len() != "task_succeeded"@.len());
    assert("referenced"@.len() != "user_rejected"@.len());
    assert("user_confirmed_correct"@.len() != "task_succeeded"@.len());
    assert("user_confirmed_correct"@.len() != "user_rejected"@.len());
    assert("task_succeeded"@.len() != "user_rejected"@.len());
}

/// The consolidation scope names: each of the four names gives its own
/// scope, and every other name is unknown.
pub proof fn lemma_scope_names(name: Seq<char>)
    ensures
        scope_of(name) == Some(ScopeKind::Incremental) <==> name == "incremental"@,
        scope_of(name) == Some(ScopeKind::Full) <==> name == "full"@,
        scope_of(name) == Some(ScopeKind::EdgesOnly) <==> name == "edges_only"@,
        scope_of(name) == Some(ScopeKind::Reindex) <==> name == "reindex"@,
        scope_of(name) is None <==> !(name == "incremental"@ || name == "full"@ || name
            == "edges_only"@ || name == "reindex"@),
{
    reveal_strlit("incremental");
    reveal_strlit("full");
    reveal_strlit("edges_only");
    reveal_strlit("reindex");
    assert("incremental"@.len() != "full"@.len());
    assert("incremental"@.len() != "edges_only"@.len());
    assert("incremental"@.len() != "reindex"@.len());
    assert("full"@.len() != "edges_only"@.len());
    assert("full"@.len() != "reindex"@.len());
    assert("edges_only"@.len() != "reindex"@.len());
}

/// A listing asks for the caller's page size when it is at most 100, and
/// for 100 otherwise.
pub proof fn lemma_page_size(limit: usize)
    ensures
        limit <= 100 ==> (if limit <= MAX_PAGE_SIZE {
            limit
        } else {
            MAX_PAGE_SIZE
        }) == limit,
        limit > 100 ==> (if limit <= MAX_PAGE_SIZE {
            limit
        } else {
            MAX_PAGE_SIZE
        }) == 100,
{
}

} // verus!
