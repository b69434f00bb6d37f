//! Events for the paging service.

use crate::text::same_text;
use vstd::prelude::*;

verus! {

/// Where events for the paging service are sent.
pub const EVENTS_ENDPOINT: &'static str = "https://events.pagerduty.com/v2/enqueue";

/// An event for the paging service.
#[derive(Clone, Debug, PartialEq, Eq)]
pub struct PDEvent {
    pub payload: PDPayload,
    pub routing_key: String,
    pub event_action: PDEventAction,
    pub dedup_key: Option<String>,
    pub client: Option<String>,
    pub client_url: Option<String>,
}

/// What an event says about the problem.
#[derive(Clone, Debug, PartialEq, Eq)]
pub struct PDPayload {
    pub summary: String,
    pub severity: PDSeverity,
    pub source: String,
    pub component: Option<String>,
    pub group: Option<String>,
    pub class: Option<String>,
}

/// What an event asks the paging service to do.
#[derive(Clone, Copy, PartialEq, Eq, Structural, Debug)]
pub enum PDEventAction {
    Trigger,
    Acknowledge,
    Resolve,
}

/// How bad the problem is.
#[derive(Clone, Copy, PartialEq, Eq, Structural, Debug)]
pub enum PDSeverity {
    Critical,
    Warning,
    Error,
    Info,
}

impl PDEventAction {
    /// The word that stands for the action in a sent event.
    pub open spec fn word(self) -> Seq<char> {
        match self {
            PDEventAction::Trigger => "tirgger"@,
            PDEventAction::Acknowledge => "acknowledge"@,
            PDEventAction::Resolve => "resolve"@,
        }
    }

    /// The word that stands for the action in a sent event.
    pub fn as_str(&self) -> (word: &'static str)
        ensures
            word@ == self.word(),
    {
        match self {
            PDEventAction::Trigger => "tirgger",
            PDEventAction::Acknowledge => "acknowledge",
            PDEventAction::Resolve => "resolve",
        }
    }
}

impl PDEventAction {
    /// The action that a word in a sent event stands for, if any.
    pub open spec fn of_word(word: Seq<char>) -> Option<PDEventAction> {
        if word == PDEventAction::Trigger.word() {
            Some(PDEventAction::Trigger)
        } else if word == PDEventAction::Acknowledge.word() {
            Some(PDEventAction::Acknowledge)
        } else if word == PDEventAction::Resolve.word() {
            Some(PDEventAction::Resolve)
        } else {
            None
        }
    }

    /// Every action is read back from its own word.
    pub proof fn lemma_word_reads_back(self)
        ensures
            PDEventAction::of_word(self.word()) == Some(self),
    {
        reveal_strlit("tirgger");
        reveal_strlit("acknowledge");
        reveal_strlit("resolve");
        assert("tirgger"@[0] == 't');
        assert("acknowledge"@[0] == 'a');
        assert("resolve"@[0] == 'r');
    }

    /// Reads an action from its word in a sent event.
    pub fn from_word(word: &str) -> (action: Option<PDEventAction>)
        ensures
            action == PDEventAction::of_word(word@),
    {
        if same_text(word, "tirgger") {
            Some(PDEventAction::Trigger)
        } else if same_text(word, "acknowledge") {
            Some(PDEventAction::Acknowledge)
        } else if same_text(word, "resolve") {
            Some(PDEventAction::Resolve)
        } else {
            None
        }
    }
}

impl PDSeverity {
    /// The severity that a word in a sent event stands for, if any.
    pub open spec fn of_word(word: Seq<char>) -> Option<PDSeverity> {
        if word == PDSeverity::Critical.word() {
            Some(PDSeverity::Critical)
        } else if word == PDSeverity::Warning.word() {
            Some(PDSeverity::Warning)
        } else if word == PDSeverity::Error.word() {
            Some(PDSeverity::Error)
        } else if word == PDSeverity::Info.word() {
            Some(PDSeverity::Info)
        } else {
            None
        }
    }

    /// Every severity is read back from its own word.
    pub proof fn lemma_word_reads_back(self)
        ensures
            PDSeverity::of_word(self.word()) == Some(self),
    {
        reveal_strlit("critical");
        reveal_strlit("warning");
        reveal_strlit("error");
        reveal_strlit("info");
        assert("critical"@[0] == 'c');
        assert("warning"@[0] == 'w');
        assert("error"@[0] == 'e');
        assert("info"@[0] == 'i');
    }

    /// Reads a severity from its word in a sent event.
    pub fn from_word(word: &str) -> (severity: Option<PDSeverity>)
        ensures
            severity == PDSeverity::of_word(word@),
    {
        if same_text(word, "critical") {
            Some(PDSeverity::Critical)
        } else if same_text(word, "warning") {
            Some(PDSeverity::Warning)
        } else if same_text(word, "error") {
            Some(PDSeverity::Error)
        } else if same_text(word, "info") {
            Some(PDSeverity::Info)
        } else {
            None
        }
    }

    /// The word that stands for the severity in a sent event.
    pub open spec fn word(self) -> Seq<char> {
        match self {
            PDSeverity::Critical => "critical"@,
            PDSeverity::Warning => "warning"@,
            PDSeverity::Error => "error"@,
            PDSeverity::Info => "info"@,
        }
    }

    /// The word that stands for the severity in a sent event.
    pub fn as_str(&self) -> (word: &'static str)
        ensures
            word@ == self.word(),
    {
        match self {
            PDSeverity::Critical => "critical",
            PDSeverity::Warning => "warning",
            PDSeverity::Error => "error",
            PDSeverity::Info => "info",
        }
    }
}

} // verus!
