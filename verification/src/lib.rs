//! Semantic analysis for the ink! smart-contract attribute dialect.
//!
//! The crate classifies ink! attributes into a typed domain model, resolves
//! the scope and focus of a cursor position inside a source snapshot, and
//! produces editor-facing artifacts: diagnostics with quick-fixes,
//! completions, and refactoring actions, all expressed as plain text edits.
//!
//! The host language's syntax tree is consumed through a plain-value model
//! (tokens, items and raw attributes with text ranges); building that model
//! from a parsed tree is the embedder's concern.

use vstd::prelude::*;

pub mod actions;
pub mod arg;
pub mod attr;
pub mod codegen;
pub mod completions;
pub mod diagnostics;
pub mod edit_builder;
pub mod extension;
pub mod meta;
pub mod strutil;
pub mod tables;
pub mod test_utils;
pub mod text_edit;
pub mod topic;
pub mod tree;

verus! {

/// A contiguous range of byte offsets in the analyzed source text.
#[derive(Debug, Clone, Copy, PartialEq, Eq, Structural)]
pub struct TextRange {
    pub start: usize,
    pub end: usize,
}

impl TextRange {
    /// Well-formed ranges do not end before they start.
    pub open spec fn wf(self) -> bool {
        self.start <= self.end
    }

    pub fn new(start: usize, end: usize) -> (r: TextRange)
        requires
            start <= end,
        ensures
            r == (TextRange { start, end }),
    {
        TextRange { start, end }
    }

    /// Whether `other` lies entirely inside `self` (bounds included).
    pub fn contains_range(&self, other: TextRange) -> (r: bool)
        ensures
            r == self.spec_contains_range(other),
    {
        self.start <= other.start && other.end <= self.end
    }

    pub open spec fn spec_contains_range(self, other: TextRange) -> bool {
        self.start <= other.start && other.end <= self.end
    }

    /// Whether the range covers no text at all.
    pub fn is_empty(&self) -> (r: bool)
        ensures
            r == (self.start == self.end),
    {
        self.start == self.end
    }
}

} // verus!
