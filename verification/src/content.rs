//! The kinds of content a memory can hold, and how a caller names them.
use vstd::prelude::*;
use vstd::utf8::is_ascii_chars;
use crate::text::{
    ascii_lower_char, ascii_lowercase, ascii_upper_char, ascii_uppercase, str_eq, str_to_lowercase,
    unicode_lowercase,
};

verus! {

/// The type of a memory's content.  The engine gives each kind its own decay
/// protection and importance baseline.
#[derive(Clone, Copy, Debug, PartialEq, Eq, Structural)]
pub enum ContentKind {
    UserStatement,
    AssistantObservation,
    ToolResult,
    Decision,
    Preference,
    Event,
    TaskState,
    ProjectKnowledge,
    Reflection,
    Correction,
}

/// The content kind that an already lowercased name stands for.  Each kind
/// has its lowercase name, and the multi-word kinds also their snake-case
/// name; any other name, the empty one included, stands for `UserStatement`.
pub open spec fn content_kind_of_lowercase(s: Seq<char>) -> ContentKind {
    if s == "decision"@ {
        ContentKind::Decision
    } else if s == "preference"@ {
        ContentKind::Preference
    } else if s == "project_knowledge"@ || s == "projectknowledge"@ {
        ContentKind::ProjectKnowledge
    } else if s == "task_state"@ || s == "taskstate"@ {
        ContentKind::TaskState
    } else if s == "correction"@ {
        ContentKind::Correction
    } else if s == "event"@ {
        ContentKind::Event
    } else if s == "reflection"@ {
        ContentKind::Reflection
    } else if s == "assistant_observation"@ || s == "assistantobservation"@ {
        ContentKind::AssistantObservation
    } else if s == "tool_result"@ || s == "toolresult"@ {
        ContentKind::ToolResult
    } else {
        ContentKind::UserStatement
    }
}

impl ContentKind {
    /// The name of the kind as it is written out, e.g. `ProjectKnowledge`.
    pub open spec fn display_name(self) -> Seq<char> {
        match self {
            ContentKind::UserStatement => "UserStatement"@,
            ContentKind::AssistantObservation => "AssistantObservation"@,
            ContentKind::ToolResult => "ToolResult"@,
            ContentKind::Decision => "Decision"@,
            ContentKind::Preference => "Preference"@,
            ContentKind::Event => "Event"@,
            ContentKind::TaskState => "TaskState"@,
            ContentKind::ProjectKnowledge => "ProjectKnowledge"@,
            ContentKind::Reflection => "Reflection"@,
            ContentKind::Correction => "Correction"@,
        }
    }

    /// The name of the kind as it is written out in results and listings.
    pub fn name(&self) -> (r: &'static str)
        ensures
            r@ == self.display_name(),
    {
        match self {
            ContentKind::UserStatement => "UserStatement",
            ContentKind::AssistantObservation => "AssistantObservation",
            ContentKind::ToolResult => "ToolResult",
            ContentKind::Decision => "Decision",
            ContentKind::Preference => "Preference",
            ContentKind::Event => "Event",
            ContentKind::TaskState => "TaskState",
            ContentKind::ProjectKnowledge => "ProjectKnowledge",
            ContentKind::Reflection => "Reflection",
            ContentKind::Correction => "Correction",
        }
    }
}

/// The content kind that an already lowercased name stands for.
pub fn content_kind_from_lowercase(s: &str) -> (k: ContentKind)
    ensures
        k == content_kind_of_lowercase(s@),
{
    if str_eq(s, "decision") {
        ContentKind::Decision
    } else if str_eq(s, "preference") {
        ContentKind::Preference
    } else if str_eq(s, "project_knowledge") || str_eq(s, "projectknowledge") {
        ContentKind::ProjectKnowledge
    } else if str_eq(s, "task_state") || str_eq(s, "taskstate") {
        ContentKind::TaskState
    } else if str_eq(s, "correction") {
        ContentKind::Correction
    } else if str_eq(s, "event") {
        ContentKind::Event
    } else if str_eq(s, "reflection") {
        ContentKind::Reflection
    } else if str_eq(s, "assistant_observation") || str_eq(s, "assistantobservation") {
        ContentKind::AssistantObservation
    } else if str_eq(s, "tool_result") || str_eq(s, "toolresult") {
        ContentKind::ToolResult
    } else {
        ContentKind::UserStatement
    }
}

/// The content kind a caller's name stands for, whatever its letter case.
/// Never fails: a name that matches no kind gives `UserStatement`.
pub fn parse_content_type(s: &str) -> (k: ContentKind)
    ensures
        k == content_kind_of_lowercase(unicode_lowercase(s@)),
        is_ascii_chars(s@) ==> k == content_kind_of_lowercase(ascii_lowercase(s@)),
{
    let lower = str_to_lowercase(s);
    content_kind_from_lowercase(lower.as_str())
}

/// The content kind of a write: the named one, or `UserStatement` when the
/// caller names none.
pub fn resolve_content_type(content_type: Option<&str>) -> (k: ContentKind)
    ensures
        content_type is None ==> k == ContentKind::UserStatement,
        content_type matches Some(s) ==> k == content_kind_of_lowercase(unicode_lowercase(s@)),
        content_type matches Some(s) ==> (is_ascii_chars(s@) ==> k == content_kind_of_lowercase(
            ascii_lowercase(s@),
        )),
{
    match content_type {
        Some(s) => parse_content_type(s),
        None => ContentKind::UserStatement,
    }
}

/// Every name the library writes out for a content kind is plain ASCII and,
/// read back with any letter case folded the ASCII way, names that same kind:
/// a kind taken from a result or a listing can be passed back as a filter or
/// a write's type.
pub proof fn lemma_content_name_round_trip(k: ContentKind)
    ensures
        is_ascii_chars(k.display_name()),
        content_kind_of_lowercase(ascii_lowercase(k.display_name())) == k,
{
    reveal_strlit("UserStatement");
    reveal_strlit("AssistantObservation");
    reveal_strlit("ToolResult");
    reveal_strlit("Decision");
    reveal_strlit("Preference");
    reveal_strlit("Event");
    reveal_strlit("TaskState");
    reveal_strlit("ProjectKnowledge");
    reveal_strlit("Reflection");
    reveal_strlit("Correction");
    reveal_strlit("decision");
    reveal_strlit("preference");
    reveal_strlit("project_knowledge");
    reveal_strlit("projectknowledge");
    reveal_strlit("task_state");
    reveal_strlit("taskstate");
    reveal_strlit("correction");
    reveal_strlit("event");
    reveal_strlit("reflection");
    reveal_strlit("assistant_observation");
    reveal_strlit("assistantobservation");
    reveal_strlit("tool_result");
    reveal_strlit("toolresult");
    let n = k.display_name();
    let l = ascii_lowercase(n);
    match k {
        ContentKind::UserStatement => {
            assert(l.len() == 13);
            assert(l != "decision"@);
            assert(l != "preference"@);
            assert(l != "project_knowledge"@);
            assert(l != "projectknowledge"@);
            assert(l != "task_state"@);
            assert(l != "taskstate"@);
            assert(l != "correction"@);
            assert(l != "event"@);
            assert(l != "reflection"@);
            assert(l != "assistant_observation"@);
            assert(l != "assistantobservation"@);
            assert(l != "tool_result"@);
            assert(l != "toolresult"@);
        },
        ContentKind::AssistantObservation => {
            assert(l =~= "assistantobservation"@);
            assert(l.len() != "decision"@.len());
            assert(l.len() != "preference"@.len());
            assert(l.len() != "project_knowledge"@.len());
            assert(l.len() != "projectknowledge"@.len());
            assert(l.len() != "task_state"@.len());
            assert(l.len() != "taskstate"@.len());
            assert(l.len() != "correction"@.len());
            assert(l.len() != "event"@.len());
            assert(l.len() != "reflection"@.len());
            assert(l.len() != "assistant_observation"@.len());
        },
        ContentKind::ToolResult => {
            assert(l =~= "toolresult"@);
            assert(l.len() != "decision"@.len());
            assert(l[0] != "preference"@[0]);
            assert(l.len() != "project_knowledge"@.len());
            assert(l.len() != "projectknowledge"@.len());
            assert(l[1] != "task_state"@[1]);
            assert(l.len() != "taskstate"@.len());
            assert(l[0] != "correction"@[0]);
            assert(l.len() != "event"@.len());
            assert(l[0] != "reflection"@[0]);
            assert(l.len() != "assistant_observation"@.len());
            assert(l.len() != "assistantobservation"@.len());
            assert(l.len() != "tool_result"@.len());
        },
        ContentKind::Decision => {
            assert(l =~= "decision"@);
        },
        ContentKind::Preference => {
            assert(l =~= "preference"@);
            assert(l.len() != "decision"@.len());
        },
        ContentKind::Event => {
            assert(l =~= "event"@);
            assert(l.len() != "decision"@.len());
            assert(l.len() != "preference"@.len());
            assert(l.len() != "project_knowledge"@.len());
            assert(l.len() != "projectknowledge"@.len());
            assert(l.len() != "task_state"@.len());
            assert(l.len() != "taskstate"@.len());
            assert(l.len() != "correction"@.len());
        },
        ContentKind::TaskState => {
            assert(l =~= "taskstate"@);
            assert(l.len() != "decision"@.len());
            assert(l.len() != "preference"@.len());
            assert(l.len() != "project_knowledge"@.len());
            assert(l.len() != "projectknowledge"@.len());
            assert(l.len() != "task_state"@.len());
        },
        ContentKind::ProjectKnowledge => {
            assert(l =~= "projectknowledge"@);
            assert(l.len() != "decision"@.len());
            assert(l.len() != "preference"@.len());
            assert(l.len() != "project_knowledge"@.len());
        },
        ContentKind::Reflection => {
            assert(l =~= "reflection"@);
            assert(l.len() != "decision"@.len());
            assert(l[0] != "preference"@[0]);
            assert(l.len() != "project_knowledge"@.len());
            assert(l.len() != "projectknowledge"@.len());
            assert(l[0] != "task_state"@[0]);
            assert(l.len() != "taskstate"@.len());
            assert(l[0] != "correction"@[0]);
            assert(l.len() != "event"@.len());
        },
        ContentKind::Correction => {
            assert(l =~= "correction"@);
            assert(l.len() != "decision"@.len());
            assert(l[0] != "preference"@[0]);
            assert(l.len() != "project_knowledge"@.len());
            assert(l.len() != "projectknowledge"@.len());
            assert(l[0] != "task_state"@[0]);
            assert(l.len() != "taskstate"@.len());
        },
    }
}

/// Letter case never matters in a content-type name made of ASCII
/// characters: the name, its lowercase and its uppercase are all ASCII and,
/// read as `parse_content_type` reads ASCII names, all name the same kind.
pub proof fn lemma_content_type_ignores_ascii_case(s: Seq<char>)
    requires
        is_ascii_chars(s),
    ensures
        is_ascii_chars(ascii_lowercase(s)),
        is_ascii_chars(ascii_uppercase(s)),
        content_kind_of_lowercase(ascii_lowercase(ascii_lowercase(s))) == content_kind_of_lowercase(
            ascii_lowercase(s),
        ),
        content_kind_of_lowercase(ascii_lowercase(ascii_uppercase(s))) == content_kind_of_lowercase(
            ascii_lowercase(s),
        ),
{
    let lo = ascii_lowercase(s);
    let up = ascii_uppercase(s);
    assert forall|i: int| 0 <= i < lo.len() implies '\0' <= #[trigger] lo[i] && lo[i] <= '\u{7f}' by {
        assert(lo[i] == ascii_lower_char(s[i]));
    }
    assert forall|i: int| 0 <= i < up.len() implies '\0' <= #[trigger] up[i] && up[i] <= '\u{7f}' by {
        assert(up[i] == ascii_upper_char(s[i]));
    }
    assert(ascii_lowercase(lo) =~= lo) by {
        assert forall|i: int| 0 <= i < lo.len() implies #[trigger] ascii_lowercase(lo)[i] == lo[i] by {
            assert(lo[i] == ascii_lower_char(s[i]));
        }
    }
    assert(ascii_lowercase(up) =~= lo) by {
        assert forall|i: int| 0 <= i < lo.len() implies #[trigger] ascii_lowercase(up)[i] == lo[i] by {
            assert(up[i] == ascii_upper_char(s[i]));
            assert(lo[i] == ascii_lower_char(s[i]));
        }
    }
}

/// What a lowercased content-type name stands for: each kind but
/// `UserStatement` is named by exactly its lowercase name (and, for the
/// kinds of two words, its snake-case name), and every other name stands for
/// `UserStatement`.
pub proof fn lemma_content_kind_names(s: Seq<char>)
    ensures
        content_kind_of_lowercase(s) == ContentKind::Decision <==> s == "decision"@,
        content_kind_of_lowercase(s) == ContentKind::Preference <==> s == "preference"@,
        content_kind_of_lowercase(s) == ContentKind::ProjectKnowledge <==> (s == "project_knowledge"@
            || s == "projectknowledge"@),
        content_kind_of_lowercase(s) == ContentKind::TaskState <==> (s == "task_state"@ || s
            == "taskstate"@),
        content_kind_of_lowercase(s) == ContentKind::Correction <==> s == "correction"@,
        content_kind_of_lowercase(s) == ContentKind::Event <==> s == "event"@,
        content_kind_of_lowercase(s) == ContentKind::Reflection <==> s == "reflection"@,
        content_kind_of_lowercase(s) == ContentKind::AssistantObservation <==> (s
            == "assistant_observation"@ || s == "assistantobservation"@),
        content_kind_of_lowercase(s) == ContentKind::ToolResult <==> (s == "tool_result"@ || s
            == "toolresult"@),
        content_kind_of_lowercase(s) == ContentKind::UserStatement <==> !(s == "decision"@ || s == "preference"@ || s == "project_knowledge"@ || s == "projectknowledge"@ || s == "task_state"@ || s == "taskstate"@ || s == "correction"@ || s == "event"@ || s == "reflection"@ || s == "assistant_observation"@ || s == "assistantobservation"@ || s == "tool_result"@ || s == "toolresult"@),
{
    reveal_strlit("decision");
    reveal_strlit("preference");
    reveal_strlit("project_knowledge");
    reveal_strlit("projectknowledge");
    reveal_strlit("task_state");
    reveal_strlit("taskstate");
    reveal_strlit("correction");
    reveal_strlit("event");
    reveal_strlit("reflection");
    reveal_strlit("assistant_observation");
    reveal_strlit("assistantobservation");
    reveal_strlit("tool_result");
    reveal_strlit("toolresult");
    assert("decision"@.len() != "preference"@.len());
    assert("decision"@.len() != "project_knowledge"@.len());
    assert("decision"@.len() != "projectknowledge"@.len());
    assert("decision"@.len() != "task_state"@.len());
    assert("decision"@.len() != "taskstate"@.len());
    assert("decision"@.len() != "correction"@.len());
    assert("decision"@.len() != "event"@.len());
    assert("decision"@.len() != "reflection"@.len());
    assert("decision"@.len() != "assistant_observation"@.len());
    assert("decision"@.len() != "assistantobservation"@.len());
    assert("decision"@.len() != "tool_result"@.len());
    assert("decision"@.len() != "toolresult"@.len());
    assert("preference"@.len() != "project_knowledge"@.len());
    assert("preference"@.len() != "projectknowledge"@.len());
    assert("preference"@[0] != "task_state"@[0]);
    assert("preference"@.len() != "taskstate"@.len());
    assert("preference"@[0] != "correction"@[0]);
    assert("preference"@.len() != "event"@.len());
    assert("preference"@[0] != "reflection"@[0]);
    assert("preference"@.len() != "assistant_observation"@.len());
    assert("preference"@.len() != "assistantobservation"@.len());
    assert("preference"@.len() != "tool_result"@.len());
    assert("preference"@[0] != "toolresult"@[0]);
    assert("project_knowledge"@.len() != "projectknowledge"@.len());
    assert("project_knowledge"@.len() != "task_state"@.len());
    assert("project_knowledge"@.len() != "taskstate"@.len());
    assert("project_knowledge"@.len() != "correction"@.len());
    assert("project_knowledge"@.len() != "event"@.len());
    assert("project_knowledge"@.len() != "reflection"@.len());
    assert("project_knowledge"@.len() != "assistant_observation"@.len());
    assert("project_knowledge"@.len() != "assistantobservation"@.len());
    assert("project_knowledge"@.len() != "tool_result"@.len());
    assert("project_knowledge"@.len() != "toolresult"@.len());
    assert("projectknowledge"@.len() != "task_state"@.len());
    assert("projectknowledge"@.len() != "taskstate"@.len());
    assert("projectknowledge"@.len() != "correction"@.len());
    assert("projectknowledge"@.len() != "event"@.len());
    assert("projectknowledge"@.len() != "reflection"@.len());
    assert("projectknowledge"@.len() != "assistant_observation"@.len());
    assert("projectknowledge"@.len() != "assistantobservation"@.len());
    assert("projectknowledge"@.len() != "tool_result"@.len());
    assert("projectknowledge"@.len() != "toolresult"@.len());
    assert("task_state"@.len() != "taskstate"@.len());
    assert("task_state"@[0] != "correction"@[0]);
    assert("task_state"@.len() != "event"@.len());
    assert("task_state"@[0] != "reflection"@[0]);
    assert("task_state"@.len() != "assistant_observation"@.len());
    assert("task_state"@.len() != "assistantobservation"@.len());
    assert("task_state"@.len() != "tool_result"@.len());
    assert("task_state"@[1] != "toolresult"@[1]);
    assert("taskstate"@.len() != "correction"@.len());
    assert("taskstate"@.len() != "event"@.len());
    assert("taskstate"@.len() != "reflection"@.len());
    assert("taskstate"@.len() != "assistant_observation"@.len());
    assert("taskstate"@.len() != "assistantobservation"@.len());
    assert("taskstate"@.len() != "tool_result"@.len());
    assert("taskstate"@.len() != "toolresult"@.len());
    assert("correction"@.len() != "event"@.len());
    assert("correction"@[0] != "reflection"@[0]);
    assert("correction"@.len() != "assistant_observation"@.len());
    assert("correction"@.len() != "assistantobservation"@.len());
    assert("correction"@.len() != "tool_result"@.len());
    assert("correction"@[0] != "toolresult"@[0]);
    assert("event"@.len() != "reflection"@.len());
    assert("event"@.len() != "assistant_observation"@.len());
    assert("event"@.len() != "assistantobservation"@.len());
    assert("event"@.len() != "tool_result"@.len());
    assert("event"@.len() != "toolresult"@.len());
    assert("reflection"@.len() != "assistant_observation"@.len());
    assert("reflection"@.len() != "assistantobservation"@.len());
    assert("reflection"@.len() != "tool_result"@.len());
    assert("reflection"@[0] != "toolresult"@[0]);
    assert("assistant_observation"@.len() != "assistantobservation"@.len());
    assert("assistant_observation"@.len() != "tool_result"@.len());
    assert("assistant_observation"@.len() != "toolresult"@.len());
    assert("assistantobservation"@.len() != "tool_result"@.len());
    assert("assistantobservation"@.len() != "toolresult"@.len());
    assert("tool_result"@.len() != "toolresult"@.len());
}

/// The name written out for each kind is its variant's identifier.
pub proof fn lemma_content_kind_display_names()
    ensures
        ContentKind::UserStatement.display_name() == "UserStatement"@,
        ContentKind::AssistantObservation.display_name() == "AssistantObservation"@,
        ContentKind::ToolResult.display_name() == "ToolResult"@,
        ContentKind::Decision.display_name() == "Decision"@,
        ContentKind::Preference.display_name() == "Preference"@,
        ContentKind::Event.display_name() == "Event"@,
        ContentKind::TaskState.display_name() == "TaskState"@,
        ContentKind::ProjectKnowledge.display_name() == "ProjectKnowledge"@,
        ContentKind::Reflection.display_name() == "Reflection"@,
        ContentKind::Correction.display_name() == "Correction"@,
{
}

} // verus!
