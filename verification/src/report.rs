//! What the sweep reports: one record for each key, and the outcome behind it.

use vstd::prelude::*;

verus! {

/// How serious a record is.
#[derive(Clone, Copy, Debug, PartialEq, Eq, Structural)]
pub enum Level {
    Info,
    Error,
}

/// What a record is: a level and a line of text.
pub struct RecordView {
    pub level: Level,
    pub text: Seq<char>,
}

/// One line for the log.
#[derive(Debug, PartialEq, Eq)]
pub struct Record {
    pub level: Level,
    pub text: String,
}

impl View for Record {
    type V = RecordView;

    open spec fn view(&self) -> RecordView {
        RecordView { level: self.level, text: self.text@ }
    }
}

/// What a list of records is.
pub open spec fn record_views(records: Seq<Record>) -> Seq<RecordView> {
    records.map_values(|record: Record| record@)
}

/// What became of one key, as plain text.
pub enum OutcomeView {
    Deleted(Seq<char>),
    Failed(Seq<char>, Seq<char>),
}

/// What became of one key: the store took the deletion request, or it
/// failed for the reason given. An absent key is no failure; the store
/// decides what a deletion of it means.
#[derive(Debug, PartialEq, Eq)]
pub enum DeletionOutcome {
    Deleted(String),
    Failed(String, String),
}

impl View for DeletionOutcome {
    type V = OutcomeView;

    open spec fn view(&self) -> OutcomeView {
        match self {
            DeletionOutcome::Deleted(key) => OutcomeView::Deleted(key@),
            DeletionOutcome::Failed(key, reason) => OutcomeView::Failed(key@, reason@),
        }
    }
}

/// The line that reports a deleted key.
pub open spec fn deleted_text(key: Seq<char>) -> Seq<char> {
    "Deleted '"@ + key + "' from redis server!"@
}

/// The line that reports a failed deletion.
pub open spec fn failed_text(key: Seq<char>, reason: Seq<char>) -> Seq<char> {
    "Unable to delete key '"@ + key + "' from redis server: "@ + reason
}

/// The record of an outcome: an informational line for a deleted key, an
/// error line with the reason for a failed one.
pub open spec fn record_of(outcome: OutcomeView) -> RecordView {
    match outcome {
        OutcomeView::Deleted(key) => RecordView { level: Level::Info, text: deleted_text(key) },
        OutcomeView::Failed(key, reason) => RecordView {
            level: Level::Error,
            text: failed_text(key, reason),
        },
    }
}

/// The key an outcome is about.
pub open spec fn key_of(outcome: OutcomeView) -> Seq<char> {
    match outcome {
        OutcomeView::Deleted(key) => key,
        OutcomeView::Failed(key, _) => key,
    }
}

impl DeletionOutcome {
    /// The key this outcome is about.
    pub fn key(&self) -> (key: &str)
        ensures
            key@ == key_of(self@),
    {
        match self {
            DeletionOutcome::Deleted(key) => key.as_str(),
            DeletionOutcome::Failed(key, _) => key.as_str(),
        }
    }

    /// Whether the deletion failed.
    pub fn is_failure(&self) -> (failed: bool)
        ensures
            failed == (self@ is Failed),
    {
        match self {
            DeletionOutcome::Deleted(_) => false,
            DeletionOutcome::Failed(_, _) => true,
        }
    }

    /// The log record of this outcome.
    pub fn record(&self) -> (record: Record)
        ensures
            record@ == record_of(self@),
    {
        match self {
            DeletionOutcome::Deleted(key) => {
                let mut text = String::from_str("Deleted '");
                text.append(key.as_str());
                text.append("' from redis server!");
                Record { level: Level::Info, text }
            },
            DeletionOutcome::Failed(key, reason) => {
                let mut text = String::from_str("Unable to delete key '");
                text.append(key.as_str());
                text.append("' from redis server: ");
                text.append(reason.as_str());
                Record { level: Level::Error, text }
            },
        }
    }
}

} // verus!
