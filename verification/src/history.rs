//! Entries that Codex++ adds to the conversation history.

use vstd::prelude::*;

verus! {

/// A history entry carrying a message.
#[derive(Clone, Debug, PartialEq, Eq)]
pub enum HistoryCell {
    Info { message: String, hint: Option<String> },
    Error { message: String },
    Warning { message: String },
}

impl HistoryCell {
    /// The message the entry shows.
    pub open spec fn message(self) -> Seq<char> {
        match self {
            HistoryCell::Info { message, .. } => message@,
            HistoryCell::Error { message } => message@,
            HistoryCell::Warning { message } => message@,
        }
    }
}

} // verus!
