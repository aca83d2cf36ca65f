//! Plain-value model of one immutable source snapshot: its tokens, its
//! annotatable declarations (pre-order, parent-indexed), and their attributes,
//! with classification, focus resolution and scope resolution over it.

use vstd::prelude::*;

use crate::attr::{
    spec_args_of, spec_ink_attr_kind, spec_is_ink_attr, InkAttribute, InkAttributeKind,
    InkMacroKind, RawAttr,
};
use crate::strutil::{eq_ignoring_whitespace, spec_strip_whitespace, str_eq};
use crate::TextRange;

verus! {

/// The lexical class of one token.
#[derive(Debug, Clone, Copy, PartialEq, Eq, Hash, Structural)]
pub enum TokenKind {
    Whitespace,
    Comment,
    Ident,
    LBrack,
    RBrack,
    LParen,
    RParen,
    Comma,
    Colon,
    ColonColon,
    Pound,
    Other,
}

/// One token of the source text.
#[derive(Debug)]
pub struct Token {
    pub kind: TokenKind,
    pub text: String,
    pub range: TextRange,
}

/// The kind of an annotatable declaration.
#[derive(Debug, Clone, Copy, PartialEq, Eq, Hash, Structural)]
pub enum ItemKind {
    Module,
    Function,
    Struct,
    Enum,
    Union,
    Trait,
    Impl,
    RecordField,
    TypeAlias,
    Other,
}

/// The visibility of a function item.
#[derive(Debug, Clone, Copy, PartialEq, Eq, Hash, Structural)]
pub enum VisKind {
    /// No visibility qualifier (inherited/private).
    Inherited,
    /// Plain `pub`.
    Public,
    /// A path-qualified form such as `pub(crate)` or `pub(in my::path)`.
    Restricted,
}

/// Signature facts about a function item that the diagnostics read, each
/// offending token with the source range whose deletion removes it (including
/// any trailing separator/trivia).
#[derive(Debug)]
pub struct FnData {
    pub vis: VisKind,
    /// Range of the visibility qualifier token itself, if any.
    pub vis_range: Option<TextRange>,
    /// Range whose deletion removes the visibility qualifier together with
    /// its trailing space, if any.
    pub vis_removal_range: Option<TextRange>,
    /// Range of the generic parameter list (e.g. `<T>`), if any.
    pub generics_range: Option<TextRange>,
    /// Range of a `const ` qualifier, if any.
    pub const_range: Option<TextRange>,
    /// Range of an `async ` qualifier, if any.
    pub async_range: Option<TextRange>,
    /// Range of an `unsafe ` qualifier, if any.
    pub unsafe_range: Option<TextRange>,
    /// Range of an explicit ABI such as `extern "C" `, if any.
    pub abi_range: Option<TextRange>,
    /// Range of a variadic marker (e.g. `, ...`), if any.
    pub variadic_range: Option<TextRange>,
    /// Whether the function takes `&self` or `&mut self`.
    pub has_self_ref_receiver: bool,
    /// The offset right after the parameter list's opening parenthesis.
    pub param_insert_offset: Option<usize>,
    /// Whether the parameter list holds any non-receiver parameter.
    pub has_params: bool,
    /// The return type's source text, if a return type is declared.
    pub ret_type_text: Option<String>,
    /// The return type node's range, if a return type is declared.
    pub ret_type_range: Option<TextRange>,
    /// The range of the whole return-type clause (`-> Type` plus surrounding
    /// trivia), if a return type is declared.
    pub ret_clause_range: Option<TextRange>,
}

/// One attribute of an item: either a classified ink! attribute or any other
/// (non-ink!) raw attribute.
#[derive(Debug)]
pub enum Attr {
    Ink(InkAttribute),
    Other(RawAttr),
}

/// Classifies a list of raw attributes, in source order: attributes whose
/// path starts with a reserved ink! namespace name are cast into typed
/// `InkAttribute`s, all others are kept raw.
pub fn classify_attrs(raws: Vec<RawAttr>) -> (r: Vec<Attr>)
    ensures
        r@.len() == raws@.len(),
        forall|k: int|
            0 <= k < raws@.len() ==> match #[trigger] r@[k] {
                Attr::Ink(a) => spec_is_ink_attr(raws@[k]) && a.kind == spec_ink_attr_kind(
                    raws@[k],
                ) && a.args@ == spec_args_of(raws@[k].args@) && a.text@ == raws@[k].text@ && a.range
                    == raws@[k].range && a.has_token_tree == raws@[k].has_token_tree,
                Attr::Other(o) => !spec_is_ink_attr(raws@[k]) && o == raws@[k],
            },
{
    let ghost raws0 = raws@;
    let mut rest = raws;
    let mut out: Vec<Attr> = Vec::new();
    while rest.len() > 0
        invariant
            out@.len() + rest@.len() == raws0.len(),
            rest@ =~= raws0.subrange(out@.len() as int, raws0.len() as int),
            forall|k: int|
                0 <= k < out@.len() ==> match #[trigger] out@[k] {
                    Attr::Ink(a) => spec_is_ink_attr(raws0[k]) && a.kind == spec_ink_attr_kind(
                        raws0[k],
                    ) && a.args@ == spec_args_of(raws0[k].args@) && a.text@ == raws0[k].text@
                        && a.range == raws0[k].range && a.has_token_tree
                        == raws0[k].has_token_tree,
                    Attr::Other(o) => !spec_is_ink_attr(raws0[k]) && o == raws0[k],
                },
        decreases rest@.len(),
    {
        let raw = rest.remove(0);
        proof {
            assert(raw == raws0[out@.len() as int]);
        }
        let is_ink = raw.path_segments.len() > 0 && (str_eq(
            raw.path_segments[0].text.as_str(),
            "ink",
        ) || str_eq(raw.path_segments[0].text.as_str(), "ink_e2e"));
        if is_ink {
            let ink_attr = InkAttribute::cast(raw).unwrap();
            out.push(Attr::Ink(ink_attr));
        } else {
            out.push(Attr::Other(raw));
        }
    }
    out
}

/// An annotatable declaration (or a record field, or an unrecognized node
/// that can carry attributes).
#[derive(Debug)]
pub struct Item {
    pub kind: ItemKind,
    /// The item's declared name, if it has one.
    pub name: Option<String>,
    /// Index of the closest enclosing item, if any; always smaller than the
    /// item's own index (items are listed in pre-order).
    pub parent: Option<usize>,
    /// The item's full source range, attributes included.
    pub range: TextRange,
    /// The declaration/header range: from the item's first token (after
    /// attributes and doc comments) through its introducer keyword and name;
    /// absent for items with no resolvable header/body split.
    pub decl_range: Option<TextRange>,
    /// The range of the item's terminating token (closing brace or
    /// semicolon); absent for items with no resolvable header/body split.
    pub terminal_range: Option<TextRange>,
    /// The item's attributes, in source order, ink! ones classified.
    pub attrs: Vec<Attr>,
    /// Signature facts, for function items.
    pub fn_data: Option<FnData>,
    /// Whether an `impl` item is a trait implementation.
    pub is_trait_impl: bool,
}

/// The kind of enclosing entity that constrains which arguments are valid on
/// descendants.
#[derive(Debug, Clone, Copy, PartialEq, Eq, Hash, Structural)]
pub enum ScopeKind {
    Contract,
    ChainExtension,
    TraitDefinition,
}

/// The range of an attribute, ink! or not.
pub open spec fn spec_attr_range(a: Attr) -> TextRange {
    match a {
        Attr::Ink(ink_attr) => ink_attr.range,
        Attr::Other(raw) => raw.range,
    }
}

impl Attr {
    /// The range of the attribute, ink! or not.
    pub fn attr_range(&self) -> (r: TextRange)
        ensures
            r == spec_attr_range(*self),
    {
        match self {
            Attr::Ink(ink_attr) => ink_attr.range,
            Attr::Other(raw) => raw.range,
        }
    }
}

/// Structural well-formedness of one item at position `i`: the parent index
/// points upwards and all carried ranges are well formed.
pub open spec fn spec_item_wf(item: Item, i: int) -> bool {
    &&& match item.parent {
        Some(p) => 0 <= p < i,
        None => true,
    }
    &&& item.range.wf()
    &&& match item.decl_range {
        Some(r) => r.wf(),
        None => true,
    }
    &&& match item.terminal_range {
        Some(r) => r.wf(),
        None => true,
    }
    &&& forall|a: int| 0 <= a < item.attrs@.len() ==> (#[trigger] spec_attr_range(
        item.attrs@[a],
    )).wf()
}

/// One immutable source snapshot: total text length, tokens and items.
#[derive(Debug)]
pub struct InkFile {
    /// Total length of the source text, in bytes.
    pub text_len: usize,
    /// All tokens, in source order.
    pub tokens: Vec<Token>,
    /// All annotatable declarations, in pre-order.
    pub items: Vec<Item>,
}

impl InkFile {
    /// Structural well-formedness of the whole snapshot.
    pub open spec fn wf(self) -> bool {
        &&& forall|i: int| 0 <= i < self.items@.len() ==> spec_item_wf(#[trigger] self.items@[i], i)
        &&& forall|t: int|
            0 <= t < self.tokens@.len() ==> (#[trigger] self.tokens@[t]).range.wf()
                && self.tokens@[t].range.end <= self.text_len
    }

    /// Decides structural well-formedness, so that an embedder can validate a
    /// model it built before handing it to the analysis entry points.
    pub fn check_wf(&self) -> (r: bool)
        ensures
            r == self.wf(),
    {
        let mut i: usize = 0;
        while i < self.items.len()
            invariant
                0 <= i <= self.items@.len(),
                forall|j: int| 0 <= j < i ==> spec_item_wf(#[trigger] self.items@[j], j),
            decreases self.items@.len() - i,
        {
            if !check_item_wf(&self.items[i], i) {
                return false;
            }
            i += 1;
        }
        let mut t: usize = 0;
        while t < self.tokens.len()
            invariant
                0 <= t <= self.tokens@.len(),
                forall|j: int|
                    0 <= j < t ==> (#[trigger] self.tokens@[j]).range.wf()
                        && self.tokens@[j].range.end <= self.text_len,
            decreases self.tokens@.len() - t,
        {
            let tok = &self.tokens[t];
            if !(tok.range.start <= tok.range.end && tok.range.end <= self.text_len) {
                return false;
            }
            t += 1;
        }
        true
    }
}

/// Decides `spec_item_wf` for one item.
fn check_item_wf(item: &Item, i: usize) -> (r: bool)
    ensures
        r == spec_item_wf(*item, i as int),
{
    let parent_ok = match item.parent {
        Some(p) => p < i,
        None => true,
    };
    if !parent_ok {
        return false;
    }
    if !(item.range.start <= item.range.end) {
        return false;
    }
    let decl_ok = match &item.decl_range {
        Some(r) => r.start <= r.end,
        None => true,
    };
    if !decl_ok {
        return false;
    }
    let term_ok = match &item.terminal_range {
        Some(r) => r.start <= r.end,
        None => true,
    };
    if !term_ok {
        return false;
    }
    let mut a: usize = 0;
    while a < item.attrs.len()
        invariant
            0 <= a <= item.attrs@.len(),
            forall|j: int| 0 <= j < a ==> (#[trigger] spec_attr_range(item.attrs@[j])).wf(),
        decreases item.attrs@.len() - a,
    {
        let ar = item.attrs[a].attr_range();
        if !(ar.start <= ar.end) {
            return false;
        }
        a += 1;
    }
    true
}

/// The innermost (last listed) token whose range covers `range`, if any.
pub open spec fn spec_covering_token(tokens: Seq<Token>, range: TextRange) -> Option<int>
    decreases tokens.len(),
{
    if tokens.len() == 0 {
        None
    } else if tokens.last().range.spec_contains_range(range) {
        Some(tokens.len() - 1)
    } else {
        spec_covering_token(tokens.drop_last(), range)
    }
}

/// The innermost (last listed, i.e. deepest in pre-order) item whose range
/// covers `range` and whose kind satisfies "is a declaration" (not a record
/// field) or "is a record field", per `want_field`.
pub open spec fn spec_covering_item(items: Seq<Item>, range: TextRange, want_field: bool) -> Option<
    int,
>
    decreases items.len(),
{
    if items.len() == 0 {
        None
    } else if items.last().range.spec_contains_range(range) && ((items.last().kind
        == ItemKind::RecordField) == want_field) {
        Some(items.len() - 1)
    } else {
        spec_covering_item(items.drop_last(), range, want_field)
    }
}

impl InkFile {
    /// Finds the innermost token whose range covers the given range: the
    /// "focused" lexical element.
    pub fn covering_token(&self, range: TextRange) -> (r: Option<usize>)
        ensures
            match r {
                Some(t) => t < self.tokens@.len() && Some(t as int) == spec_covering_token(
                    self.tokens@,
                    range,
                ),
                None => spec_covering_token(self.tokens@, range) is None,
            },
    {
        let mut i: usize = self.tokens.len();
        proof {
            assert(self.tokens@.take(self.tokens@.len() as int) =~= self.tokens@);
        }
        while i > 0
            invariant
                0 <= i <= self.tokens@.len(),
                spec_covering_token(self.tokens@, range) == spec_covering_token(
                    self.tokens@.take(i as int),
                    range,
                ),
            decreases i,
        {
            i -= 1;
            proof {
                assert(self.tokens@.take(i + 1).drop_last() =~= self.tokens@.take(i as int));
                assert(self.tokens@.take(i + 1).last() == self.tokens@[i as int]);
            }
            if self.tokens[i].range.contains_range(range) {
                return Some(i);
            }
        }
        proof {
            assert(self.tokens@.take(0) =~= Seq::<Token>::empty());
        }
        None
    }

    /// Finds the nearest declaration covering the given range: the innermost
    /// item that is not a record field.
    pub fn parent_ast_item(&self, range: TextRange) -> (r: Option<usize>)
        ensures
            match r {
                Some(t) => t < self.items@.len() && Some(t as int) == spec_covering_item(
                    self.items@,
                    range,
                    false,
                ),
                None => spec_covering_item(self.items@, range, false) is None,
            },
    {
        self.covering_item_impl(range, false)
    }

    /// Finds the innermost record field covering the given range.
    pub fn covering_record_field(&self, range: TextRange) -> (r: Option<usize>)
        ensures
            match r {
                Some(t) => t < self.items@.len() && Some(t as int) == spec_covering_item(
                    self.items@,
                    range,
                    true,
                ),
                None => spec_covering_item(self.items@, range, true) is None,
            },
    {
        self.covering_item_impl(range, true)
    }

    fn covering_item_impl(&self, range: TextRange, want_field: bool) -> (r: Option<usize>)
        ensures
            match r {
                Some(t) => t < self.items@.len() && Some(t as int) == spec_covering_item(
                    self.items@,
                    range,
                    want_field,
                ),
                None => spec_covering_item(self.items@, range, want_field) is None,
            },
    {
        let mut i: usize = self.items.len();
        proof {
            assert(self.items@.take(self.items@.len() as int) =~= self.items@);
        }
        while i > 0
            invariant
                0 <= i <= self.items@.len(),
                spec_covering_item(self.items@, range, want_field) == spec_covering_item(
                    self.items@.take(i as int),
                    range,
                    want_field,
                ),
            decreases i,
        {
            i -= 1;
            proof {
                assert(self.items@.take(i + 1).drop_last() =~= self.items@.take(i as int));
                assert(self.items@.take(i + 1).last() == self.items@[i as int]);
            }
            if self.items[i].range.contains_range(range) && ((self.items[i].kind
                == ItemKind::RecordField) == want_field) {
                return Some(i);
            }
        }
        proof {
            assert(self.items@.take(0) =~= Seq::<Item>::empty());
        }
        None
    }

    /// Finds the first attribute (of any item, in pre-order) whose range
    /// covers the given range; the focus then belongs to attribute content.
    pub fn covering_attr(&self, range: TextRange) -> (r: Option<(usize, usize)>)
        ensures
            match r {
                Some((i, a)) => i < self.items@.len() && a < self.items@[i as int].attrs@.len()
                    && spec_attr_range(self.items@[i as int].attrs@[a as int]).spec_contains_range(
                    range,
                ),
                None => forall|i: int, a: int|
                    0 <= i < self.items@.len() && 0 <= a < self.items@[i].attrs@.len()
                        ==> !(#[trigger] spec_attr_range(
                        self.items@[i].attrs@[a],
                    )).spec_contains_range(range),
            },
    {
        let mut i: usize = 0;
        while i < self.items.len()
            invariant
                0 <= i <= self.items@.len(),
                forall|j: int, a: int|
                    0 <= j < i && 0 <= a < self.items@[j].attrs@.len() ==> !(
                    #[trigger] spec_attr_range(self.items@[j].attrs@[a])).spec_contains_range(
                        range,
                    ),
            decreases self.items@.len() - i,
        {
            let item = &self.items[i];
            let mut a: usize = 0;
            while a < item.attrs.len()
                invariant
                    i < self.items@.len(),
                    *item == self.items@[i as int],
                    0 <= a <= item.attrs@.len(),
                    forall|b: int|
                        0 <= b < a ==> !(#[trigger] spec_attr_range(
                            item.attrs@[b],
                        )).spec_contains_range(range),
                decreases item.attrs@.len() - a,
            {
                if item.attrs[a].attr_range().contains_range(range) {
                    proof {
                        assert(spec_attr_range(
                            self.items@[i as int].attrs@[a as int],
                        ).spec_contains_range(range));
                    }
                    return Some((i, a));
                }
                a += 1;
            }
            i += 1;
        }
        None
    }

    /// Whether the given token lies in the file root, i.e. inside no item.
    pub fn token_in_file_root(&self, t: usize) -> (r: bool)
        requires
            t < self.tokens@.len(),
        ensures
            r == (forall|i: int|
                0 <= i < self.items@.len() ==> !(#[trigger] self.items@[i]).range.spec_contains_range(
                    self.tokens@[t as int].range,
                )),
    {
        let tok_range = self.tokens[t].range;
        let mut i: usize = 0;
        while i < self.items.len()
            invariant
                0 <= i <= self.items@.len(),
                tok_range == self.tokens@[t as int].range,
                forall|j: int|
                    0 <= j < i ==> !(#[trigger] self.items@[j]).range.spec_contains_range(
                        tok_range,
                    ),
            decreases self.items@.len() - i,
        {
            if self.items[i].range.contains_range(tok_range) {
                return false;
            }
            i += 1;
        }
        true
    }
}

/// The entity scope an item opens, if any: the first ink! attribute whose
/// kind is one of the scope-opening macros decides.
pub open spec fn spec_item_scope_kind(attrs: Seq<Attr>) -> Option<ScopeKind>
    decreases attrs.len(),
{
    if attrs.len() == 0 {
        None
    } else {
        match spec_attr_scope_kind(attrs[0]) {
            Some(s) => Some(s),
            None => spec_item_scope_kind(attrs.drop_first()),
        }
    }
}

/// The scope kind a single attribute opens, if any.
pub open spec fn spec_attr_scope_kind(a: Attr) -> Option<ScopeKind> {
    match a {
        Attr::Ink(ink_attr) => match ink_attr.kind {
            InkAttributeKind::Macro(InkMacroKind::Contract) => Some(ScopeKind::Contract),
            InkAttributeKind::Macro(InkMacroKind::ChainExtension) => Some(
                ScopeKind::ChainExtension,
            ),
            InkAttributeKind::Macro(InkMacroKind::TraitDefinition) => Some(
                ScopeKind::TraitDefinition,
            ),
            _ => None,
        },
        Attr::Other(_) => None,
    }
}

/// The scope kind a single attribute opens, if any.
fn attr_scope_kind(a: &Attr) -> (r: Option<ScopeKind>)
    ensures
        r == spec_attr_scope_kind(*a),
{
    match a {
        Attr::Ink(ink_attr) => match ink_attr.kind {
            InkAttributeKind::Macro(InkMacroKind::Contract) => Some(ScopeKind::Contract),
            InkAttributeKind::Macro(InkMacroKind::ChainExtension) => Some(
                ScopeKind::ChainExtension,
            ),
            InkAttributeKind::Macro(InkMacroKind::TraitDefinition) => Some(
                ScopeKind::TraitDefinition,
            ),
            _ => None,
        },
        Attr::Other(_) => None,
    }
}

/// The entity scope an item opens, if any.
pub fn item_scope_kind(item: &Item) -> (r: Option<ScopeKind>)
    ensures
        r == spec_item_scope_kind(item.attrs@),
{
    let n = item.attrs.len();
    let mut i: usize = 0;
    proof {
        assert(item.attrs@.subrange(0, n as int) =~= item.attrs@);
    }
    while i < n
        invariant
            0 <= i <= n,
            n == item.attrs@.len(),
            spec_item_scope_kind(item.attrs@) == spec_item_scope_kind(
                item.attrs@.subrange(i as int, n as int),
            ),
        decreases n - i,
    {
        proof {
            assert(item.attrs@.subrange(i as int, n as int).drop_first() =~= item.attrs@.subrange(
                i + 1,
                n as int,
            ));
            assert(item.attrs@.subrange(i as int, n as int)[0] == item.attrs@[i as int]);
        }
        match attr_scope_kind(&item.attrs[i]) {
            Some(s) => {
                return Some(s);
            },
            None => {},
        }
        i += 1;
    }
    None
}

/// The scope of the item at index `idx`: the scope opened by the nearest
/// strict ancestor that opens one, if any.
pub open spec fn spec_scope_of(items: Seq<Item>, idx: int) -> Option<ScopeKind>
    decreases (if 0 <= idx < items.len() {
        idx + 1
    } else {
        0
    }),
{
    if 0 <= idx < items.len() {
        match items[idx].parent {
            Some(p) => if 0 <= p < idx {
                match spec_item_scope_kind(items[p as int].attrs@) {
                    Some(s) => Some(s),
                    None => spec_scope_of(items, p as int),
                }
            } else {
                None
            },
            None => None,
        }
    } else {
        None
    }
}

impl InkFile {
    /// Resolves the scope of the item at `idx` by walking its ancestors
    /// upward to the nearest item that opens an entity scope.
    pub fn scope_of(&self, idx: usize) -> (r: Option<ScopeKind>)
        requires
            self.wf(),
            idx < self.items@.len(),
        ensures
            r == spec_scope_of(self.items@, idx as int),
    {
        let mut cur: usize = idx;
        loop
            invariant
                self.wf(),
                cur < self.items@.len(),
                spec_scope_of(self.items@, idx as int) == spec_scope_of(self.items@, cur as int),
            decreases cur,
        {
            match self.items[cur].parent {
                Some(p) => {
                    proof {
                        assert(spec_item_wf(self.items@[cur as int], cur as int));
                    }
                    match item_scope_kind(&self.items[p]) {
                        Some(s) => {
                            return Some(s);
                        },
                        None => {
                            cur = p;
                        },
                    }
                },
                None => {
                    return None;
                },
            }
        }
    }
}

/// Whether a non-ink! raw attribute is exactly `#[cfg(test)]`.
pub open spec fn spec_is_cfg_test_attr(raw: RawAttr) -> bool {
    &&& raw.path_segments@.len() == 1
    &&& raw.path_segments@[0].text@ == "cfg"@
    &&& exists|j: int|
        0 <= j < raw.args@.len() && (#[trigger] raw.args@[j]).spec_name_text() == Some("test"@)
            && raw.args@[j].value is Missing
}

/// Whether a non-ink! raw attribute is `#[cfg(all(test, feature = "e2e-tests"))]`
/// (compared ignoring whitespace).
pub open spec fn spec_is_cfg_e2e_attr(raw: RawAttr) -> bool {
    spec_strip_whitespace(raw.text@) == spec_strip_whitespace(
        "#[cfg(all(test, feature = \"e2e-tests\"))]"@,
    )
}

/// Decides whether a raw attribute is exactly `#[cfg(test)]`.
pub fn is_cfg_test_attr(raw: &RawAttr) -> (r: bool)
    ensures
        r == spec_is_cfg_test_attr(*raw),
{
    if raw.path_segments.len() != 1 {
        return false;
    }
    if !str_eq(raw.path_segments[0].text.as_str(), "cfg") {
        return false;
    }
    let mut j: usize = 0;
    while j < raw.args.len()
        invariant
            raw.path_segments@.len() == 1,
            raw.path_segments@[0].text@ == "cfg"@,
            0 <= j <= raw.args@.len(),
            forall|k: int|
                0 <= k < j ==> !((#[trigger] raw.args@[k]).spec_name_text() == Some("test"@)
                    && raw.args@[k].value is Missing),
        decreases raw.args@.len() - j,
    {
        let arg = &raw.args[j];
        let name_is_test = match &arg.name {
            crate::meta::MetaOption::Present(n) => str_eq(n.text.as_str(), "test"),
            _ => false,
        };
        if name_is_test && matches!(&arg.value, crate::meta::MetaOption::Missing) {
            proof {
                assert(raw.args@[j as int].spec_name_text() == Some("test"@));
            }
            return true;
        }
        j += 1;
    }
    false
}

/// Decides whether a raw attribute is `#[cfg(all(test, feature = "e2e-tests"))]`,
/// ignoring whitespace.
pub fn is_cfg_e2e_attr(raw: &RawAttr) -> (r: bool)
    ensures
        r == spec_is_cfg_e2e_attr(*raw),
{
    eq_ignoring_whitespace(raw.text.as_str(), "#[cfg(all(test, feature = \"e2e-tests\"))]")
}

/// Whether some attribute of the item satisfies the `#[cfg(test)]` shape.
pub open spec fn spec_item_is_cfg_test(item: Item) -> bool {
    exists|a: int|
        #![trigger item.attrs@[a]]
        {
            &&& 0 <= a < item.attrs@.len()
            &&& item.attrs@[a] matches Attr::Other(raw) && spec_is_cfg_test_attr(raw)
        }
}

/// Whether some attribute of the item satisfies the e2e-tests `cfg` shape.
pub open spec fn spec_item_is_cfg_e2e(item: Item) -> bool {
    exists|a: int|
        #![trigger item.attrs@[a]]
        {
            &&& 0 <= a < item.attrs@.len()
            &&& item.attrs@[a] matches Attr::Other(raw) && spec_is_cfg_e2e_attr(raw)
        }
}

/// Decides whether the item carries a `#[cfg(test)]` attribute.
pub fn item_is_cfg_test(item: &Item) -> (r: bool)
    ensures
        r == spec_item_is_cfg_test(*item),
{
    let mut a: usize = 0;
    while a < item.attrs.len()
        invariant
            0 <= a <= item.attrs@.len(),
            forall|b: int|
                0 <= b < a ==> !((#[trigger] item.attrs@[b]) matches Attr::Other(raw)
                    && spec_is_cfg_test_attr(raw)),
        decreases item.attrs@.len() - a,
    {
        match &item.attrs[a] {
            Attr::Other(raw) => {
                if is_cfg_test_attr(raw) {
                    return true;
                }
            },
            Attr::Ink(_) => {},
        }
        a += 1;
    }
    false
}

/// Decides whether the item carries the e2e-tests `cfg` attribute.
pub fn item_is_cfg_e2e(item: &Item) -> (r: bool)
    ensures
        r == spec_item_is_cfg_e2e(*item),
{
    let mut a: usize = 0;
    while a < item.attrs.len()
        invariant
            0 <= a <= item.attrs@.len(),
            forall|b: int|
                0 <= b < a ==> !((#[trigger] item.attrs@[b]) matches Attr::Other(raw)
                    && spec_is_cfg_e2e_attr(raw)),
        decreases item.attrs@.len() - a,
    {
        match &item.attrs[a] {
            Attr::Other(raw) => {
                if is_cfg_e2e_attr(raw) {
                    return true;
                }
            },
            Attr::Ink(_) => {},
        }
        a += 1;
    }
    false
}

/// Whether some strict ancestor of the item at `idx` is a module carrying a
/// `#[cfg(test)]` attribute (`e2e` selects the e2e-tests shape instead).
pub open spec fn spec_in_cfg_scope(items: Seq<Item>, idx: int, e2e: bool) -> bool
    decreases (if 0 <= idx < items.len() {
        idx + 1
    } else {
        0
    }),
{
    if 0 <= idx < items.len() {
        match items[idx].parent {
            Some(p) => if 0 <= p < idx {
                (items[p as int].kind == ItemKind::Module && (if e2e {
                    spec_item_is_cfg_e2e(items[p as int])
                } else {
                    spec_item_is_cfg_test(items[p as int])
                })) || spec_in_cfg_scope(items, p as int, e2e)
            } else {
                false
            },
            None => false,
        }
    } else {
        false
    }
}

impl InkFile {
    /// Decides whether the item at `idx` lies (lexically) inside a module
    /// annotated `#[cfg(test)]` (or the e2e-tests shape when `e2e` is set).
    pub fn in_cfg_scope(&self, idx: usize, e2e: bool) -> (r: bool)
        requires
            self.wf(),
            idx < self.items@.len(),
        ensures
            r == spec_in_cfg_scope(self.items@, idx as int, e2e),
    {
        let mut cur: usize = idx;
        loop
            invariant
                self.wf(),
                cur < self.items@.len(),
                spec_in_cfg_scope(self.items@, idx as int, e2e) == spec_in_cfg_scope(
                    self.items@,
                    cur as int,
                    e2e,
                ),
            decreases cur,
        {
            match self.items[cur].parent {
                Some(p) => {
                    proof {
                        assert(spec_item_wf(self.items@[cur as int], cur as int));
                    }
                    let is_module = self.items[p].kind == ItemKind::Module;
                    let has_cfg = if e2e {
                        item_is_cfg_e2e(&self.items[p])
                    } else {
                        item_is_cfg_test(&self.items[p])
                    };
                    if is_module && has_cfg {
                        return true;
                    }
                    cur = p;
                },
                None => {
                    return false;
                },
            }
        }
    }
}

} // verus!
