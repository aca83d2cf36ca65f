//! Plain-value model of one parsed attribute meta item (`name` or `name = value`).

use vstd::prelude::*;

use crate::TextRange;

verus! {

/// A meta item name together with its source range.
#[derive(Debug)]
pub struct MetaName {
    pub text: String,
    pub range: TextRange,
}

impl Clone for MetaName {
    fn clone(&self) -> (r: Self)
        ensures
            r == *self,
    {
        MetaName { text: self.text.clone(), range: self.range }
    }
}

/// The lexical shape of a meta item value.
#[derive(Debug, Clone, Copy, PartialEq, Eq, Structural)]
pub enum MetaValueKind {
    /// An integer literal (decimal or hexadecimal), e.g. `1` or `0x1`.
    Int,
    /// A string literal, e.g. `"my_namespace"`.
    Str,
    /// The boolean literal `true`.
    True,
    /// The boolean literal `false`.
    False,
    /// A path, e.g. `my::env::Types`.
    Path,
    /// The wildcard `_`.
    Wildcard,
    /// Anything else.
    Other,
}

/// A meta item value: its lexical kind, source text and source range.
#[derive(Debug)]
pub struct MetaValue {
    pub kind: MetaValueKind,
    pub text: String,
    pub range: TextRange,
}

impl Clone for MetaValue {
    fn clone(&self) -> (r: Self)
        ensures
            r == *self,
    {
        MetaValue { kind: self.kind, text: self.text.clone(), range: self.range }
    }
}

/// A possibly missing or malformed part of a meta item.
#[derive(Debug)]
pub enum MetaOption<T> {
    /// The part is absent.
    Missing,
    /// The part is present but not a valid name/value.
    Invalid,
    /// The part is present and well formed.
    Present(T),
}

impl<T> MetaOption<T> {
    pub fn as_ref(&self) -> (r: Option<&T>)
        ensures
            match self {
                MetaOption::Present(v) => r == Some(v),
                _ => r is None,
            },
    {
        match self {
            MetaOption::Present(v) => Some(v),
            _ => None,
        }
    }

    pub open spec fn is_present(&self) -> bool {
        self is Present
    }
}

/// One parsed `name [= value]` entry from an attribute's token tree.
#[derive(Debug)]
pub struct MetaNameValue {
    pub name: MetaOption<MetaName>,
    pub value: MetaOption<MetaValue>,
    pub range: TextRange,
}

impl Clone for MetaNameValue {
    fn clone(&self) -> (r: Self)
        ensures
            r == *self,
    {
        let name = match &self.name {
            MetaOption::Missing => MetaOption::Missing,
            MetaOption::Invalid => MetaOption::Invalid,
            MetaOption::Present(n) => MetaOption::Present(n.clone()),
        };
        let value = match &self.value {
            MetaOption::Missing => MetaOption::Missing,
            MetaOption::Invalid => MetaOption::Invalid,
            MetaOption::Present(v) => MetaOption::Present(v.clone()),
        };
        MetaNameValue { name, value, range: self.range }
    }
}

impl MetaNameValue {
    /// The name's text, if the name is present and well formed.
    pub open spec fn spec_name_text(&self) -> Option<Seq<char>> {
        match self.name {
            MetaOption::Present(n) => Some(n.text@),
            _ => None,
        }
    }

    pub fn text_range(&self) -> (r: TextRange)
        ensures
            r == self.range,
    {
        self.range
    }
}

} // verus!
