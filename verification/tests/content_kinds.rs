use hippmem_py::content::{content_kind_from_lowercase, parse_content_type, resolve_content_type, ContentKind};

const ALL: [ContentKind; 10] = [
    ContentKind::UserStatement,
    ContentKind::AssistantObservation,
    ContentKind::ToolResult,
    ContentKind::Decision,
    ContentKind::Preference,
    ContentKind::Event,
    ContentKind::TaskState,
    ContentKind::ProjectKnowledge,
    ContentKind::Reflection,
    ContentKind::Correction,
];

#[test]
fn content_type_names_from_docs() {
    assert_eq!(parse_content_type("Decision"), ContentKind::Decision);
    assert_eq!(parse_content_type("Preference"), ContentKind::Preference);
    assert_eq!(parse_content_type("ProjectKnowledge"), ContentKind::ProjectKnowledge);
    assert_eq!(parse_content_type("TaskState"), ContentKind::TaskState);
    assert_eq!(parse_content_type("Correction"), ContentKind::Correction);
    assert_eq!(parse_content_type("Event"), ContentKind::Event);
    assert_eq!(parse_content_type("Reflection"), ContentKind::Reflection);
}

#[test]
fn content_type_snake_case_and_letter_case() {
    assert_eq!(parse_content_type("project_knowledge"), ContentKind::ProjectKnowledge);
    assert_eq!(parse_content_type("PROJECT_KNOWLEDGE"), ContentKind::ProjectKnowledge);
    assert_eq!(parse_content_type("Task_State"), ContentKind::TaskState);
    assert_eq!(parse_content_type("assistant_observation"), ContentKind::AssistantObservation);
    assert_eq!(parse_content_type("AssistantObservation"), ContentKind::AssistantObservation);
    assert_eq!(parse_content_type("tool_result"), ContentKind::ToolResult);
    assert_eq!(parse_content_type("TOOLRESULT"), ContentKind::ToolResult);
    assert_eq!(parse_content_type("dEcIsIoN"), ContentKind::Decision);
}

#[test]
fn content_type_unknown_names_fall_back() {
    assert_eq!(parse_content_type(""), ContentKind::UserStatement);
    assert_eq!(parse_content_type("UserStatement"), ContentKind::UserStatement);
    assert_eq!(parse_content_type("decisions"), ContentKind::UserStatement);
    assert_eq!(parse_content_type(" decision"), ContentKind::UserStatement);
    assert_eq!(parse_content_type("project-knowledge"), ContentKind::UserStatement);
}

#[test]
fn content_type_unicode_lowercasing() {
    // The Kelvin sign lowercases to an ASCII `k`.
    assert_eq!(parse_content_type("tas\u{212A}_state"), ContentKind::TaskState);
    assert_eq!(parse_content_type("DÉCISION"), ContentKind::UserStatement);
}

#[test]
fn content_kind_from_lowercase_needs_lowercase() {
    assert_eq!(content_kind_from_lowercase("decision"), ContentKind::Decision);
    assert_eq!(content_kind_from_lowercase("Decision"), ContentKind::UserStatement);
    assert_eq!(content_kind_from_lowercase("taskstate"), ContentKind::TaskState);
}

#[test]
fn content_kind_names_read_back() {
    for k in ALL.iter() {
        assert_eq!(parse_content_type(k.name()), *k);
        assert_eq!(parse_content_type(&k.name().to_uppercase()), *k);
    }
    assert_eq!(ContentKind::ProjectKnowledge.name(), "ProjectKnowledge");
    assert_eq!(ContentKind::UserStatement.name(), "UserStatement");
}

#[test]
fn write_content_type_defaults_to_user_statement() {
    assert_eq!(resolve_content_type(None), ContentKind::UserStatement);
    assert_eq!(resolve_content_type(Some("preference")), ContentKind::Preference);
    assert_eq!(resolve_content_type(Some("nonsense")), ContentKind::UserStatement);
}

#[test]
fn content_type_letter_case_never_matters() {
    let names = [
        "decision", "Preference", "PROJECT_KNOWLEDGE", "projectKnowledge", "task_state",
        "TaskState", "Correction", "event", "Reflection", "assistant_Observation",
        "ToolResult", "tool_result", "UserStatement", "", "something else",
    ];
    for n in names.iter() {
        let k = parse_content_type(n);
        assert_eq!(parse_content_type(&n.to_lowercase()), k, "name {:?}", n);
        assert_eq!(parse_content_type(&n.to_ascii_uppercase()), k, "name {:?}", n);
        assert_eq!(parse_content_type(&n.to_ascii_lowercase()), k, "name {:?}", n);
    }
}
