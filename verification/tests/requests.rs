use hippmem_py::content::ContentKind;
use hippmem_py::error::ArgumentError;
use hippmem_py::request::{
    feedback_request, list_request, open_config, parse_scope, parse_signal, EmbedderSpec,
    ExtractorChoice, ScopeKind, Signal, MAX_PAGE_SIZE,
};

fn s(x: &str) -> Option<String> {
    Some(x.to_string())
}

#[test]
fn open_defaults() {
    let c = open_config(None, "auto", "auto", None, None, None).unwrap();
    assert_eq!(c.store_dir, "./hippmem_data");
    assert!(matches!(c.embedder, EmbedderSpec::Auto));
    assert_eq!(c.extractor, ExtractorChoice::Auto);
}

#[test]
fn open_hash_with_path() {
    let c = open_config(s("/tmp/store"), "hash", "hash", None, None, None).unwrap();
    assert_eq!(c.store_dir, "/tmp/store");
    assert!(matches!(c.embedder, EmbedderSpec::Hash { dimensions: 256 }));
    assert_eq!(c.extractor, ExtractorChoice::Deterministic);
}

#[test]
fn open_neural_with_all_settings() {
    let c = open_config(None, "neural", "neural", s("http://api"), s("k-123"), s("m1")).unwrap();
    match c.embedder {
        EmbedderSpec::Neural { base_url, model, api_key, dimensions } => {
            assert_eq!(base_url, "http://api");
            assert_eq!(model, "m1");
            assert_eq!(api_key, s("k-123"));
            assert_eq!(dimensions, 1536);
        }
        other => panic!("unexpected embedder {:?}", other),
    }
    assert_eq!(c.extractor, ExtractorChoice::Api);
}

#[test]
fn open_neural_missing_settings() {
    let r = open_config(None, "neural", "auto", s("http://api"), None, s("m1"));
    assert!(matches!(r, Err(ArgumentError::NeuralEmbedderNeedsApi)));
    let r = open_config(None, "neural", "auto", None, None, None);
    assert!(matches!(r, Err(ArgumentError::NeuralEmbedderNeedsApi)));
}

#[test]
fn open_unknown_embedder() {
    match open_config(None, "onnx", "auto", None, None, None) {
        Err(ArgumentError::UnknownEmbedder(n)) => assert_eq!(n, "onnx"),
        other => panic!("unexpected {:?}", other),
    }
    // The embedder is checked before the extractor.
    match open_config(None, "Hash", "nope", None, None, None) {
        Err(ArgumentError::UnknownEmbedder(n)) => assert_eq!(n, "Hash"),
        other => panic!("unexpected {:?}", other),
    }
}

#[test]
fn open_unknown_extractor() {
    match open_config(None, "hash", "rules", None, None, None) {
        Err(ArgumentError::UnknownExtractor(n)) => assert_eq!(n, "rules"),
        other => panic!("unexpected {:?}", other),
    }
}

#[test]
fn signal_names() {
    assert_eq!(parse_signal("referenced").unwrap(), Signal::Referenced);
    assert_eq!(parse_signal("user_confirmed_correct").unwrap(), Signal::UserConfirmedCorrect);
    assert_eq!(parse_signal("task_succeeded").unwrap(), Signal::TaskSucceeded);
    assert_eq!(parse_signal("user_rejected").unwrap(), Signal::UserRejected);
    match parse_signal("Referenced") {
        Err(ArgumentError::UnknownSignal(n)) => assert_eq!(n, "Referenced"),
        other => panic!("unexpected {:?}", other),
    }
}

#[test]
fn scope_names() {
    assert_eq!(parse_scope("incremental").unwrap(), ScopeKind::Incremental);
    assert_eq!(parse_scope("full").unwrap(), ScopeKind::Full);
    assert_eq!(parse_scope("edges_only").unwrap(), ScopeKind::EdgesOnly);
    assert_eq!(parse_scope("reindex").unwrap(), ScopeKind::Reindex);
    match parse_scope("weekly") {
        Err(ArgumentError::UnknownScope(n)) => assert_eq!(n, "weekly"),
        other => panic!("unexpected {:?}", other),
    }
}

#[test]
fn feedback_request_keeps_readable_ids() {
    let ids = vec!["10".to_string(), "ten".to_string(), "11".to_string()];
    let q = feedback_request(77, &ids, "task_succeeded").unwrap();
    assert_eq!(q.retrieval_id, 77);
    assert_eq!(q.signal, Signal::TaskSucceeded);
    assert_eq!(q.memory_ids, vec![10u128, 11]);
    match feedback_request(77, &ids, "liked") {
        Err(ArgumentError::UnknownSignal(n)) => assert_eq!(n, "liked"),
        other => panic!("unexpected {:?}", other),
    }
}

#[test]
fn list_request_caps_page_size() {
    assert_eq!(list_request(20, None, None).limit, 20);
    assert_eq!(list_request(100, None, None).limit, 100);
    assert_eq!(list_request(101, None, None).limit, MAX_PAGE_SIZE);
    assert_eq!(list_request(0, None, None).limit, 0);
    assert_eq!(list_request(usize::MAX, None, None).limit, 100);
}

#[test]
fn list_request_cursor_and_filter() {
    let r = list_request(5, s("123456"), Some("Decision"));
    assert_eq!(r.cursor, Some(123456));
    assert_eq!(r.content_type, Some(ContentKind::Decision));
    let r = list_request(5, s("not-a-cursor"), Some("whatever"));
    assert_eq!(r.cursor, None);
    assert_eq!(r.content_type, Some(ContentKind::UserStatement));
    let r = list_request(5, None, None);
    assert_eq!(r.cursor, None);
    assert_eq!(r.content_type, None);
}

#[test]
fn refusal_messages() {
    let e = open_config(None, "onnx", "auto", None, None, None).unwrap_err();
    assert!(!e.is_type_error());
    assert_eq!(e.message(), "embedder must be 'auto', 'hash' or 'neural', got \"onnx\"");
    let e = open_config(None, "neural", "auto", None, None, None).unwrap_err();
    assert!(e.is_type_error());
    assert_eq!(e.message(), "embedder='neural' requires api_base_url, api_key, and model");
    let e = open_config(None, "auto", "x\"y", None, None, None).unwrap_err();
    assert_eq!(e.message(), "extractor must be 'hash', 'neural' or 'auto', got \"x\\\"y\"");
    let e = parse_signal("nope").unwrap_err();
    assert_eq!(
        e.message(),
        "signal must be one of 'referenced', 'user_confirmed_correct', 'task_succeeded', 'user_rejected', got \"nope\""
    );
    let e = parse_scope("").unwrap_err();
    assert_eq!(
        e.message(),
        "scope must be one of 'incremental', 'full', 'edges_only', 'reindex', got \"\""
    );
    assert!(!e.is_type_error());
    let e = ArgumentError::InvalidMemoryId("a\nb".to_string());
    assert_eq!(e.message(), "memory_id must be a decimal integer, got \"a\\nb\"");
}

#[test]
fn refusal_message_of_plain_name_is_quoted() {
    let e = parse_scope("nightly").unwrap_err();
    assert_eq!(
        e.message(),
        "scope must be one of 'incremental', 'full', 'edges_only', 'reindex', got \"nightly\""
    );
    let e = ArgumentError::InvalidMemoryId("12ab".to_string());
    assert_eq!(e.message(), "memory_id must be a decimal integer, got \"12ab\"");
}
