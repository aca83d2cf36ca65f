//! Editor-facing artifact types: text edits, actions, diagnostics.

use vstd::prelude::*;

use crate::TextRange;

verus! {

/// One text edit, expressed in original-document coordinates: replace
/// `range` with `text` (insertions use an empty range, deletions an empty
/// text).  The optional snippet is a parallel rendering of `text` that only
/// adds placeholder markers.
#[derive(Debug)]
pub struct TextEdit {
    pub text: String,
    pub range: TextRange,
    pub snippet: Option<String>,
}

impl TextEdit {
    /// An insertion of `text` at `offset`.
    pub fn insert(text: String, offset: usize) -> (r: TextEdit)
        ensures
            r.text == text,
            r.range == (TextRange { start: offset, end: offset }),
            r.snippet is None,
    {
        TextEdit { text, range: TextRange { start: offset, end: offset }, snippet: None }
    }

    /// An insertion of `text` at `offset`, with a parallel snippet.
    pub fn insert_with_snippet(text: String, offset: usize, snippet: Option<String>) -> (r:
        TextEdit)
        ensures
            r.text == text,
            r.range == (TextRange { start: offset, end: offset }),
            r.snippet == snippet,
    {
        TextEdit { text, range: TextRange { start: offset, end: offset }, snippet }
    }

    /// A replacement of `range` with `text`.
    pub fn replace(text: String, range: TextRange) -> (r: TextEdit)
        ensures
            r.text == text,
            r.range == range,
            r.snippet is None,
    {
        TextEdit { text, range, snippet: None }
    }

    /// A replacement of `range` with `text`, with a parallel snippet.
    pub fn replace_with_snippet(text: String, range: TextRange, snippet: Option<String>) -> (r:
        TextEdit)
        ensures
            r.text == text,
            r.range == range,
            r.snippet == snippet,
    {
        TextEdit { text, range, snippet }
    }

    /// A deletion of `range`.
    pub fn delete(range: TextRange) -> (r: TextEdit)
        ensures
            r.text@ == Seq::<char>::empty(),
            r.range == range,
            r.snippet is None,
    {
        TextEdit { text: String::new(), range, snippet: None }
    }
}

/// The kind of an action.
#[derive(Debug, Clone, Copy, PartialEq, Eq, Structural)]
pub enum ActionKind {
    /// A refactoring or intent action.
    Refactor,
    /// A fix attached to a diagnostic.
    QuickFix,
}

/// A refactor or quick-fix action: a label and the text edits that perform
/// it, applicable atomically in original-document coordinates.
#[derive(Debug)]
pub struct Action {
    pub label: String,
    pub kind: ActionKind,
    pub range: TextRange,
    pub edits: Vec<TextEdit>,
}

/// The severity of a diagnostic.
#[derive(Debug, Clone, Copy, PartialEq, Eq, Structural)]
pub enum Severity {
    /// An invariant violation.
    Error,
    /// Informational only.
    Warning,
}

/// A diagnostic: a message, the source range it applies to, a severity, and
/// optionally quick-fix actions that resolve it.
#[derive(Debug)]
pub struct Diagnostic {
    pub message: String,
    pub range: TextRange,
    pub severity: Severity,
    pub quickfixes: Option<Vec<Action>>,
}

} // verus!
