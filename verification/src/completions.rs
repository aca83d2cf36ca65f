//! ink! attribute completions: macro path completions and argument
//! completions at a cursor offset.

use vstd::prelude::*;
use vstd::string::StrSliceExecFns;
use vstd::string::StringExecFns;

use crate::arg::{spec_arg_kind_name, InkArgKind};
use crate::attr::{
    spec_macro_crate_name, spec_macro_display_name, spec_macro_name, InkAttributeKind,
    InkMacroKind,
};
use crate::edit_builder::{ink_arg_insert_text, spec_arg_insert_snippet, spec_arg_insert_text};
use crate::strutil::{str_concat, str_concat3, str_starts_with};
use crate::tables::{
    item_has_arg_kind, remove_duplicate_ink_arg_suggestions, retain_args_matching_prefix,
    retain_macros_by_crate_name, retain_macros_matching_prefix, spec_arg_valid_in_scope,
    spec_item_has_arg_kind, spec_macro_valid_in_scope, spec_retained, spec_valid_args_for,
    spec_valid_macros_for, spec_valid_sibling_args, valid_ink_args_by_item_kind,
    valid_ink_macros_by_item_kind, valid_sibling_ink_args,
};
use crate::text_edit::TextEdit;
use crate::tree::{
    spec_scope_of, Attr, InkFile, Item, ItemKind, Token, TokenKind,
};
use crate::TextRange;

verus! {

/// An ink! attribute completion item.
#[derive(Debug)]
pub struct Completion {
    /// Label which identifies the completion.
    pub label: String,
    /// Range of identifier that is being completed.
    pub range: TextRange,
    /// Replacement text for the completion.
    pub edit: TextEdit,
    /// Descriptive information about the completion.
    pub detail: Option<String>,
}

/// The focused token at a cursor offset: the first token whose range covers
/// the offset (so at a boundary between two tokens the earlier one wins).
pub open spec fn spec_focused_token(tokens: Seq<Token>, offset: int) -> Option<int>
    decreases tokens.len(),
{
    if tokens.len() == 0 {
        Option::None
    } else if tokens[0].range.start <= offset && offset <= tokens[0].range.end {
        Some(0int)
    } else {
        match spec_focused_token(tokens.drop_first(), offset) {
            Some(t) => Some(t + 1),
            Option::None => Option::None,
        }
    }
}

/// A focused token covers the offset.
pub proof fn lemma_focused_token_props(tokens: Seq<Token>, offset: int)
    ensures
        spec_focused_token(tokens, offset) matches Some(t) ==> 0 <= t < tokens.len()
            && tokens[t].range.start <= offset <= tokens[t].range.end,
    decreases tokens.len(),
{
    if tokens.len() == 0 {
    } else if tokens[0].range.start <= offset && offset <= tokens[0].range.end {
    } else {
        lemma_focused_token_props(tokens.drop_first(), offset);
    }
}

/// A found covering attribute's indices are in bounds and the match
/// propagates to any larger search bound.
pub proof fn lemma_covering_attr_items_mono(items: Seq<Item>, offset: int, u: int, u2: int)
    requires
        0 <= u <= u2 <= items.len(),
        spec_covering_attr_items(items, offset, u) is Some,
    ensures
        spec_covering_attr_items(items, offset, u2) == spec_covering_attr_items(items, offset, u),
    decreases u2 - u,
{
    if u < u2 {
        lemma_covering_attr_items_mono(items, offset, u, u2 - 1);
    }
}

/// Finds the focused token at a cursor offset.
pub fn focused_token(file: &InkFile, offset: usize) -> (r: Option<usize>)
    ensures
        match r {
            Some(t) => t < file.tokens@.len() && spec_focused_token(file.tokens@, offset as int)
                == Some(t as int),
            None => spec_focused_token(file.tokens@, offset as int) is None,
        },
{
    let mut i: usize = 0;
    proof {
        assert(file.tokens@.skip(0) =~= file.tokens@);
    }
    while i < file.tokens.len()
        invariant
            0 <= i <= file.tokens@.len(),
            match spec_focused_token(file.tokens@.skip(i as int), offset as int) {
                Some(t) => spec_focused_token(file.tokens@, offset as int) == Some(t + i),
                Option::None => spec_focused_token(file.tokens@, offset as int) is None,
            },
        decreases file.tokens@.len() - i,
    {
        proof {
            assert(file.tokens@.skip(i as int).drop_first() =~= file.tokens@.skip(i + 1));
            assert(file.tokens@.skip(i as int)[0] == file.tokens@[i as int]);
        }
        let tok = &file.tokens[i];
        if tok.range.start <= offset && offset <= tok.range.end {
            return Some(i);
        }
        i += 1;
    }
    None
}

/// The nearest non-trivia token before `t` (whitespace and comments are
/// trivia).
pub open spec fn spec_prev_non_trivia(tokens: Seq<Token>, t: int) -> Option<int>
    decreases (if t >= 0 {
        t
    } else {
        0
    }),
{
    if t <= 0 || t > tokens.len() {
        Option::None
    } else if tokens[t - 1].kind != TokenKind::Whitespace && tokens[t - 1].kind
        != TokenKind::Comment {
        Some(t - 1)
    } else {
        spec_prev_non_trivia(tokens, t - 1)
    }
}

/// Finds the nearest non-trivia token before `t`.
pub fn prev_non_trivia(file: &InkFile, t: usize) -> (r: Option<usize>)
    requires
        t <= file.tokens@.len(),
    ensures
        match r {
            Some(p) => p < file.tokens@.len() && spec_prev_non_trivia(file.tokens@, t as int)
                == Some(p as int),
            None => spec_prev_non_trivia(file.tokens@, t as int) is None,
        },
{
    let mut i: usize = t;
    while i > 0
        invariant
            0 <= i <= file.tokens@.len(),
            spec_prev_non_trivia(file.tokens@, t as int) == spec_prev_non_trivia(
                file.tokens@,
                i as int,
            ),
        decreases i,
    {
        i -= 1;
        let k = file.tokens[i].kind;
        if k != TokenKind::Whitespace && k != TokenKind::Comment {
            return Some(i);
        }
    }
    None
}

/// The focused token's prefix: the part of an all-ASCII token text that
/// lies before the cursor offset (no prefix for non-ASCII tokens).
pub open spec fn spec_token_prefix(tok: Token, offset: int) -> Option<Seq<char>> {
    if vstd::utf8::is_ascii_chars(tok.text@) && 0 <= offset - tok.range.start <= tok.text@.len() {
        Some(tok.text@.subrange(0, offset - tok.range.start))
    } else {
        Option::None
    }
}

/// Extracts the focused token's prefix before the cursor offset.
pub fn token_prefix<'a>(tok: &'a Token, offset: usize) -> (r: Option<&'a str>)
    requires
        tok.range.start <= offset,
    ensures
        match r {
            Some(p) => spec_token_prefix(*tok, offset as int) == Some(p@),
            None => spec_token_prefix(*tok, offset as int) is None,
        },
{
    let k = offset - tok.range.start;
    if tok.text.as_str().is_ascii() {
        let n = tok.text.as_str().unicode_len();
        if k <= n {
            Some(tok.text.as_str().substring_ascii(0, k))
        } else {
            None
        }
    } else {
        None
    }
}

/// The text of a token, as a sequence of characters.
pub open spec fn spec_tok_text(tokens: Seq<Token>, t: int) -> Seq<char> {
    tokens[t].text@
}

/// Whether a token's text is one of the reserved ink! namespace names.
pub open spec fn spec_is_ink_crate_text(s: Seq<char>) -> bool {
    s == "ink"@ || s == "ink_e2e"@
}

/// Whether a token's text is a path separator (`::` or `:`).
pub open spec fn spec_is_colon_text(s: Seq<char>) -> bool {
    s == "::"@ || s == ":"@
}

/// Whether the focused token sits in an ink! namespace path segment
/// position: the namespace name right after `[`, a separator right after
/// the namespace name, or a token right after a `::` that follows the
/// namespace name.
pub open spec fn spec_in_crate_path_segment(tokens: Seq<Token>, t: int) -> bool {
    match spec_prev_non_trivia(tokens, t) {
        Some(p) => {
            ||| (spec_is_ink_crate_text(spec_tok_text(tokens, t)) && tokens[p].kind
                == TokenKind::LBrack)
            ||| (spec_is_colon_text(spec_tok_text(tokens, t)) && spec_is_ink_crate_text(
                spec_tok_text(tokens, p),
            ))
            ||| (spec_tok_text(tokens, p) == "::"@ && (match spec_prev_non_trivia(tokens, p) {
                Some(q) => spec_is_ink_crate_text(spec_tok_text(tokens, q)),
                Option::None => false,
            }))
        },
        Option::None => false,
    }
}

/// Whether the item carries an ink! attribute at a position other than `a`.
pub open spec fn spec_has_other_ink_attr(item: Item, a: int) -> bool {
    exists|b: int|
        0 <= b < item.attrs@.len() && b != a && (#[trigger] item.attrs@[b]) is Ink
}

/// Whether the item carries a macro-kind ink! attribute at a position other
/// than `a`.
pub open spec fn spec_has_other_ink_macro_attr(item: Item, a: int) -> bool {
    exists|b: int|
        #![trigger item.attrs@[b]]
        {
            &&& 0 <= b < item.attrs@.len()
            &&& b != a
            &&& item.attrs@[b] matches Attr::Ink(x) && x.kind is Macro
        }
}

/// Decides `spec_has_other_ink_attr`.
fn has_other_ink_attr(item: &Item, a: usize) -> (r: bool)
    ensures
        r == spec_has_other_ink_attr(*item, a as int),
{
    let mut b: usize = 0;
    while b < item.attrs.len()
        invariant
            0 <= b <= item.attrs@.len(),
            forall|c: int| 0 <= c < b ==> !(c != a && (#[trigger] item.attrs@[c]) is Ink),
        decreases item.attrs@.len() - b,
    {
        if b != a && matches!(&item.attrs[b], Attr::Ink(_)) {
            return true;
        }
        b += 1;
    }
    false
}

/// Decides `spec_has_other_ink_macro_attr`.
fn has_other_ink_macro_attr(item: &Item, a: usize) -> (r: bool)
    ensures
        r == spec_has_other_ink_macro_attr(*item, a as int),
{
    let mut b: usize = 0;
    while b < item.attrs.len()
        invariant
            0 <= b <= item.attrs@.len(),
            forall|c: int|
                0 <= c < b && c != a ==> !((#[trigger] item.attrs@[c]) matches Attr::Ink(x)
                    && x.kind is Macro),
        decreases item.attrs@.len() - b,
    {
        if b != a {
            match &item.attrs[b] {
                Attr::Ink(x) => {
                    if matches!(x.kind, InkAttributeKind::Macro(_)) {
                        return true;
                    }
                },
                Attr::Other(_) => {},
            }
        }
        b += 1;
    }
    false
}

/// The first path segment of an attribute, if any.
pub open spec fn spec_attr_first_segment(a: Attr) -> Option<Seq<char>> {
    match a {
        Attr::Ink(x) => Some(x.ink.text@),
        Attr::Other(raw) => if raw.path_segments@.len() > 0 {
            Some(raw.path_segments@[0].text@)
        } else {
            Option::None
        },
    }
}

/// All macro kinds, in enumeration order, for an unknown item context in a
/// namespace path position.
pub open spec fn spec_all_macro_kinds() -> Seq<InkMacroKind> {
    seq![
        InkMacroKind::ChainExtension,
        InkMacroKind::Contract,
        InkMacroKind::StorageItem,
        InkMacroKind::Test,
        InkMacroKind::TraitDefinition,
        InkMacroKind::E2ETest,
    ]
}

/// The macro suggestion list for a completion context.
pub open spec fn spec_macro_completion_kinds(
    file: InkFile,
    t: int,
    item_idx: int,
    attr_idx: int,
    offset: int,
) -> Seq<InkMacroKind> {
    let tokens = file.tokens@;
    let item = file.items@[item_idx];
    let f_lbrack = tokens[t].kind == TokenKind::LBrack;
    let p_lbrack = spec_prev_non_trivia(tokens, t) matches Some(p) && tokens[p].kind
        == TokenKind::LBrack;
    let f_crate = spec_is_ink_crate_text(tokens[t].text@);
    let f_crate_or_colon = f_crate || spec_is_colon_text(tokens[t].text@);
    let in_seg = spec_in_crate_path_segment(tokens, t);
    if spec_has_other_ink_attr(item, attr_idx) {
        Seq::empty()
    } else {
        let s0 = if item.kind != ItemKind::Other {
            spec_valid_macros_for(item.kind)
        } else if in_seg {
            spec_all_macro_kinds()
        } else {
            Seq::empty()
        };
        let s1 = if in_seg && !f_crate {
            match spec_attr_first_segment(item.attrs@[attr_idx]) {
                Some(c) => spec_retained(s0, |m: InkMacroKind| spec_macro_crate_name(m) == c),
                Option::None => s0,
            }
        } else {
            s0
        };
        let s2 = if !f_lbrack && !p_lbrack && !f_crate_or_colon {
            match spec_token_prefix(tokens[t], offset) {
                Some(pre) => spec_retained(
                    s1,
                    |m: InkMacroKind| pre.is_prefix_of(spec_macro_name(m)),
                ),
                Option::None => s1,
            }
        } else {
            s1
        };
        spec_retained(
            s2,
            |m: InkMacroKind|
                spec_macro_valid_in_scope(m, spec_scope_of(file.items@, item_idx)),
        )
    }
}

/// The completion text for one macro kind in a completion context: the
/// namespace name and the separator are included only where the focused
/// token does not already supply them.
pub open spec fn spec_macro_completion_text(tokens: Seq<Token>, t: int, m: InkMacroKind) -> Seq<
    char,
> {
    let f_lbrack = tokens[t].kind == TokenKind::LBrack;
    let p_lbrack = spec_prev_non_trivia(tokens, t) matches Some(p) && tokens[p].kind
        == TokenKind::LBrack;
    let f_crate = spec_is_ink_crate_text(tokens[t].text@);
    let f_crate_or_colon = f_crate || spec_is_colon_text(tokens[t].text@);
    (if f_lbrack || p_lbrack || f_crate {
        spec_macro_crate_name(m)
    } else {
        Seq::empty()
    }) + (if f_lbrack || p_lbrack || f_crate_or_colon {
        "::"@
    } else {
        Seq::empty()
    }) + spec_macro_name(m)
}

/// The edit range of a completion: collapsed at the focused token's end for
/// a delimiter token, the token's range otherwise.
pub open spec fn spec_completion_edit_range(tok: Token, collapse: bool) -> TextRange {
    if collapse {
        TextRange { start: tok.range.end, end: tok.range.end }
    } else {
        tok.range
    }
}

/// One macro completion item: the label and the replacement text are the
/// computed completion text, anchored at the edit range.
pub open spec fn spec_is_macro_completion(
    c: Completion,
    tokens: Seq<Token>,
    t: int,
    m: InkMacroKind,
) -> bool {
    let text = spec_macro_completion_text(tokens, t, m);
    let er = spec_completion_edit_range(tokens[t], tokens[t].kind == TokenKind::LBrack);
    &&& c.label@ == text
    &&& c.range == er
    &&& c.edit.text@ == text
    &&& c.edit.range == er
    &&& c.edit.snippet is None
    &&& c.detail matches Some(d) && d@ == "ink! "@ + spec_macro_display_name(m)
        + " attribute macro."@
}

/// `post` extends `pre` by exactly the given count of completions.
pub open spec fn spec_compl_appends(pre: Seq<Completion>, post: Seq<Completion>, n: int) -> bool {
    post.len() == pre.len() + n && forall|k: int|
        #![trigger post[k]]
        #![trigger pre[k]]
        0 <= k < pre.len() ==> post[k] == pre[k]
}

/// What the macro-completion stage appends when the focus sits in an
/// attribute macro path context: one completion per suggested macro kind
/// (the `ink`/`ink_e2e` namespace fallback suggestions are offered when the
/// suggestion list is empty and are described only by count and anchoring
/// here).
pub open spec fn spec_macro_completions_post(
    pre: Seq<Completion>,
    post: Seq<Completion>,
    file: InkFile,
    offset: int,
) -> bool {
    match spec_focused_token(file.tokens@, offset) {
        Option::None => post == pre,
        Some(t) => match spec_covering_attr_idx(file, offset) {
            Option::None => post == pre,
            Some((item_idx, attr_idx)) => {
                let tokens = file.tokens@;
                let f_lbrack = tokens[t].kind == TokenKind::LBrack;
                let p_lbrack = spec_prev_non_trivia(tokens, t) matches Some(p) && tokens[p].kind
                    == TokenKind::LBrack;
                let in_seg = spec_in_crate_path_segment(tokens, t);
                if !(f_lbrack || p_lbrack || in_seg) {
                    post == pre
                } else {
                    let sugg = spec_macro_completion_kinds(file, t, item_idx, attr_idx, offset);
                    if sugg.len() > 0 {
                        &&& spec_compl_appends(pre, post, sugg.len() as int)
                        &&& forall|k: int|
                            0 <= k < sugg.len() ==> spec_is_macro_completion(
                                #[trigger] post[pre.len() + k],
                                tokens,
                                t,
                                sugg[k],
                            )
                    } else if p_lbrack && !spec_has_other_ink_macro_attr(
                        file.items@[item_idx],
                        attr_idx,
                    ) {
                        &&& post.len() >= pre.len()
                        &&& post.len() <= pre.len() + 2
                        &&& forall|k: int|
                            #![trigger post[k]]
                            0 <= k < pre.len() ==> post[k] == pre[k]
                        &&& forall|k: int|
                            #![trigger post[k]]
                            pre.len() <= k < post.len() ==> post[k].range
                                == spec_completion_edit_range(tokens[t], f_lbrack)
                    } else {
                        post == pre
                    }
                }
            },
        },
    }
}

/// The first attribute (over all items, in pre-order) covering the offset,
/// as (item index, attribute index).
pub open spec fn spec_covering_attr_idx(file: InkFile, offset: int) -> Option<(int, int)> {
    spec_covering_attr_items(file.items@, offset, file.items@.len() as int)
}

/// The first attribute among the first `upto` items covering the offset.
pub open spec fn spec_covering_attr_items(items: Seq<Item>, offset: int, upto: int) -> Option<
    (int, int),
>
    decreases (if upto >= 0 {
        upto
    } else {
        0
    }),
{
    if upto <= 0 {
        Option::None
    } else {
        match spec_covering_attr_items(items, offset, upto - 1) {
            Some(r) => Some(r),
            Option::None => match spec_covering_attr_in(items[upto - 1].attrs@, offset) {
                Some(a) => Some((upto - 1, a)),
                Option::None => Option::None,
            },
        }
    }
}

/// The first attribute in one list covering the offset.
pub open spec fn spec_covering_attr_in(attrs: Seq<Attr>, offset: int) -> Option<int>
    decreases attrs.len(),
{
    if attrs.len() == 0 {
        Option::None
    } else if crate::tree::spec_attr_range(attrs[0]).start <= offset && offset
        <= crate::tree::spec_attr_range(attrs[0]).end {
        Some(0int)
    } else {
        match spec_covering_attr_in(attrs.drop_first(), offset) {
            Some(a) => Some(a + 1),
            Option::None => Option::None,
        }
    }
}

/// Finds the first attribute covering the offset.
pub fn covering_attr_at_offset(file: &InkFile, offset: usize) -> (r: Option<(usize, usize)>)
    ensures
        match r {
            Some((i, a)) => i < file.items@.len() && a < file.items@[i as int].attrs@.len()
                && spec_covering_attr_idx(*file, offset as int) == Some((i as int, a as int)),
            None => spec_covering_attr_idx(*file, offset as int) is None,
        },
{
    let mut i: usize = 0;
    while i < file.items.len()
        invariant
            0 <= i <= file.items@.len(),
            spec_covering_attr_items(file.items@, offset as int, i as int) is None,
        decreases file.items@.len() - i,
    {
        let item = &file.items[i];
        let mut a: usize = 0;
        proof {
            assert(item.attrs@.skip(0) =~= item.attrs@);
        }
        while a < item.attrs.len()
            invariant
                i < file.items@.len(),
                *item == file.items@[i as int],
                spec_covering_attr_items(file.items@, offset as int, i as int) is None,
                0 <= a <= item.attrs@.len(),
                match spec_covering_attr_in(item.attrs@.skip(a as int), offset as int) {
                    Some(x) => spec_covering_attr_in(item.attrs@, offset as int) == Some(
                        x + a,
                    ),
                    Option::None => spec_covering_attr_in(item.attrs@, offset as int) is None,
                },
            decreases item.attrs@.len() - a,
        {
            proof {
                assert(item.attrs@.skip(a as int).drop_first() =~= item.attrs@.skip(a + 1));
                assert(item.attrs@.skip(a as int)[0] == item.attrs@[a as int]);
            }
            let ar = item.attrs[a].attr_range();
            if ar.start <= offset && offset <= ar.end {
                proof {
                    assert(spec_covering_attr_in(item.attrs@.skip(a as int), offset as int)
                        == Some(0int));
                    assert(spec_covering_attr_in(item.attrs@, offset as int) == Some(a as int));
                    assert(file.items@[i as int].attrs@ == item.attrs@);
                    assert(spec_covering_attr_items(file.items@, offset as int, i + 1) == Some(
                        (i as int, a as int),
                    ));
                    lemma_covering_attr_items_mono(
                        file.items@,
                        offset as int,
                        i + 1,
                        file.items@.len() as int,
                    );
                }
                return Some((i, a));
            }
            a += 1;
        }
        proof {
            assert(item.attrs@.skip(item.attrs@.len() as int) =~= Seq::<Attr>::empty());
        }
        i += 1;
    }
    None
}

/// Computes ink! attribute macro completions at the given offset: only in
/// an attribute macro path context, suggesting macros valid for the
/// annotated item (filtered by namespace, prefix and scope), or the bare
/// `ink`/`ink_e2e` namespace segments when nothing more specific applies.
pub fn macro_completions(results: &mut Vec<Completion>, file: &InkFile, offset: usize)
    requires
        file.wf(),
    ensures
        spec_macro_completions_post(old(results)@, final(results)@, *file, offset as int),
{
    proof {
        lemma_focused_token_props(file.tokens@, offset as int);
    }
    let t = match focused_token(file, offset) {
        Some(t) => t,
        None => {
            return ;
        },
    };
    let (item_idx, attr_idx) = match covering_attr_at_offset(file, offset) {
        Some(p) => p,
        None => {
            return ;
        },
    };
    let item = &file.items[item_idx];
    let tok = &file.tokens[t];
    let f_lbrack = tok.kind == TokenKind::LBrack;
    let prev = prev_non_trivia(file, t);
    let p_lbrack = match prev {
        Some(p) => file.tokens[p].kind == TokenKind::LBrack,
        None => false,
    };
    let f_crate = crate::strutil::str_eq(tok.text.as_str(), "ink") || crate::strutil::str_eq(
        tok.text.as_str(),
        "ink_e2e",
    );
    let f_colon = crate::strutil::str_eq(tok.text.as_str(), "::") || crate::strutil::str_eq(
        tok.text.as_str(),
        ":",
    );
    let f_crate_or_colon = f_crate || f_colon;
    let prev_is_crate = match prev {
        Some(p) => crate::strutil::str_eq(file.tokens[p].text.as_str(), "ink")
            || crate::strutil::str_eq(file.tokens[p].text.as_str(), "ink_e2e"),
        None => false,
    };
    let prev_is_coloncolon = match prev {
        Some(p) => crate::strutil::str_eq(file.tokens[p].text.as_str(), "::"),
        None => false,
    };
    let prev_prev_is_crate = match prev {
        Some(p) => match prev_non_trivia(file, p) {
            Some(q) => crate::strutil::str_eq(file.tokens[q].text.as_str(), "ink")
                || crate::strutil::str_eq(file.tokens[q].text.as_str(), "ink_e2e"),
            None => false,
        },
        None => false,
    };
    let in_seg = (f_crate && p_lbrack) || (f_colon && prev_is_crate) || (prev_is_coloncolon
        && prev_prev_is_crate);
    proof {
        assert(in_seg == spec_in_crate_path_segment(file.tokens@, t as int));
    }
    if !(f_lbrack || p_lbrack || in_seg) {
        return ;
    }
    let edit_range = if f_lbrack {
        TextRange { start: tok.range.end, end: tok.range.end }
    } else {
        tok.range
    };

    // Only suggest ink! attribute macros if the item has no other ink!
    // attributes.
    let mut sugg: Vec<InkMacroKind> = Vec::new();
    if !has_other_ink_attr(item, attr_idx) {
        let s0 = if item.kind != ItemKind::Other {
            valid_ink_macros_by_item_kind(item.kind)
        } else if in_seg {
            let mut v: Vec<InkMacroKind> = Vec::new();
            v.push(InkMacroKind::ChainExtension);
            v.push(InkMacroKind::Contract);
            v.push(InkMacroKind::StorageItem);
            v.push(InkMacroKind::Test);
            v.push(InkMacroKind::TraitDefinition);
            v.push(InkMacroKind::E2ETest);
            proof {
                assert(v@ =~= spec_all_macro_kinds());
            }
            v
        } else {
            Vec::new()
        };
        // Filters by the namespace segment already present, by the focused
        // prefix, and by the parent scope.
        let s1 = if in_seg && !f_crate {
            let first_seg: Option<&str> = match &item.attrs[attr_idx] {
                Attr::Ink(x) => Some(x.ink.text.as_str()),
                Attr::Other(raw) => if raw.path_segments.len() > 0 {
                    Some(raw.path_segments[0].text.as_str())
                } else {
                    None
                },
            };
            match first_seg {
                Some(c) => retain_macros_by_crate_name(s0, c),
                None => s0,
            }
        } else {
            s0
        };
        let s2 = if !f_lbrack && !p_lbrack && !f_crate_or_colon {
            match token_prefix(tok, offset) {
                Some(pre) => retain_macros_matching_prefix(s1, pre),
                None => s1,
            }
        } else {
            s1
        };
        sugg = crate::tables::remove_invalid_ink_macro_suggestions_for_parent_ink_scope(
            s2,
            file,
            item_idx,
        );
    }
    proof {
        assert(sugg@ == spec_macro_completion_kinds(
            *file,
            t as int,
            item_idx as int,
            attr_idx as int,
            offset as int,
        ));
    }

    if sugg.len() > 0 {
        let ghost pre = results@;
        let mut k: usize = 0;
        while k < sugg.len()
            invariant
                t < file.tokens@.len(),
                *tok == file.tokens@[t as int],
                f_lbrack == (tok.kind == TokenKind::LBrack),
                p_lbrack == (spec_prev_non_trivia(file.tokens@, t as int) matches Some(p)
                    && file.tokens@[p].kind == TokenKind::LBrack),
                f_crate == spec_is_ink_crate_text(tok.text@),
                f_crate_or_colon == (f_crate || spec_is_colon_text(tok.text@)),
                edit_range == spec_completion_edit_range(
                    file.tokens@[t as int],
                    file.tokens@[t as int].kind == TokenKind::LBrack,
                ),
                0 <= k <= sugg@.len(),
                spec_compl_appends(pre, results@, k as int),
                forall|j: int|
                    0 <= j < k ==> spec_is_macro_completion(
                        #[trigger] results@[pre.len() + j],
                        file.tokens@,
                        t as int,
                        sugg@[j],
                    ),
            decreases sugg@.len() - k,
        {
            let m = sugg[k];
            let crate_part: &'static str = if f_lbrack || p_lbrack || f_crate {
                m.crate_name()
            } else {
                ""
            };
            let colon_part: &'static str = if f_lbrack || p_lbrack || f_crate_or_colon {
                "::"
            } else {
                ""
            };
            let text = str_concat3(crate_part, colon_part, m.macro_name());
            let label = str_concat3(crate_part, colon_part, m.macro_name());
            let detail = str_concat3("ink! ", m.display_name(), " attribute macro.");
            proof {
                reveal_strlit("");
                assert(""@ =~= Seq::<char>::empty());
                assert(text@ =~= spec_macro_completion_text(file.tokens@, t as int, m));
            }
            results.push(
                Completion {
                    label,
                    range: edit_range,
                    edit: TextEdit::replace(text, edit_range),
                    detail: Some(detail),
                },
            );
            k += 1;
        }
    } else if p_lbrack && !has_other_ink_macro_attr(item, attr_idx) {
        // Suggests the `ink` and `ink_e2e` namespace segments (or a bare
        // argument attribute when other ink! attributes exist already).
        let prefix = match token_prefix(tok, offset) {
            Some(p) => p,
            None => {
                return ;
            },
        };
        if has_other_ink_attr(item, attr_idx) {
            if str_starts_with("ink()", prefix) {
                results.push(
                    Completion {
                        label: String::from_str("ink()"),
                        range: edit_range,
                        edit: TextEdit::replace_with_snippet(
                            String::from_str("ink()"),
                            edit_range,
                            Some(String::from_str("ink($1)")),
                        ),
                        detail: Some(String::from_str("ink! attribute")),
                    },
                );
            }
        } else {
            if str_starts_with("ink", prefix) {
                results.push(
                    Completion {
                        label: String::from_str("ink"),
                        range: edit_range,
                        edit: TextEdit::replace(String::from_str("ink"), edit_range),
                        detail: Some(String::from_str("ink! attribute macro")),
                    },
                );
            }
            if str_starts_with("ink_e2e", prefix) {
                results.push(
                    Completion {
                        label: String::from_str("ink_e2e"),
                        range: edit_range,
                        edit: TextEdit::replace(String::from_str("ink_e2e"), edit_range),
                        detail: Some(String::from_str("ink! e2e attribute macro")),
                    },
                );
            }
        }
    }
}

/// The fallback argument kinds offered when the annotated item's kind is
/// unknown: all argument kinds that don't require a macro, in enumeration
/// order.
pub open spec fn spec_fallback_arg_kinds() -> Seq<InkArgKind> {
    seq![
        InkArgKind::Anonymous,
        InkArgKind::Constructor,
        InkArgKind::Default,
        InkArgKind::Event,
        InkArgKind::Extension,
        InkArgKind::HandleStatus,
        InkArgKind::Impl,
        InkArgKind::Message,
        InkArgKind::Namespace,
        InkArgKind::Payable,
        InkArgKind::Selector,
        InkArgKind::Storage,
        InkArgKind::Topic,
    ]
}

/// The argument suggestion list for a completion context inside an ink!
/// attribute: the sibling table of the attribute's kind (or, for unknown
/// kinds, the annotated item's node-kind table or the fallback list), with
/// duplicates, scope-invalid kinds and non-matching prefixes removed.
pub open spec fn spec_arg_completion_kinds(
    file: InkFile,
    t: int,
    item_idx: int,
    attr_idx: int,
    offset: int,
) -> Seq<InkArgKind> {
    let tokens = file.tokens@;
    let item = file.items@[item_idx];
    let x = item.attrs@[attr_idx]->Ink_0;
    let f_lparen = tokens[t].kind == TokenKind::LParen;
    let f_comma = tokens[t].kind == TokenKind::Comma;
    let s0 = if x.kind == InkAttributeKind::Macro(InkMacroKind::Unknown) || x.kind
        == InkAttributeKind::Arg(InkArgKind::Unknown) {
        if item.kind != ItemKind::Other {
            spec_valid_args_for(item.kind)
        } else {
            spec_fallback_arg_kinds()
        }
    } else {
        spec_valid_sibling_args(x.kind)
    };
    let s1 = spec_retained(s0, |k: InkArgKind| !spec_item_has_arg_kind(item, k));
    let s2 = if !(x.kind is Macro && x.kind != InkAttributeKind::Macro(InkMacroKind::Unknown)) {
        spec_retained(
            s1,
            |k: InkArgKind| spec_arg_valid_in_scope(k, spec_scope_of(file.items@, item_idx)),
        )
    } else {
        s1
    };
    if !f_lparen && !f_comma {
        match spec_token_prefix(tokens[t], offset) {
            Some(pre) => spec_retained(
                s2,
                |k: InkArgKind| pre.is_prefix_of(spec_arg_kind_name(k)),
            ),
            Option::None => s2,
        }
    } else {
        s2
    }
}

/// The separator prefixed to an argument completion: a space right after a
/// comma that no whitespace follows yet.
pub open spec fn spec_arg_completion_sep(tokens: Seq<Token>, t: int) -> Seq<char> {
    let f_comma = tokens[t].kind == TokenKind::Comma;
    let p_comma = spec_prev_non_trivia(tokens, t) matches Some(p) && tokens[p].kind
        == TokenKind::Comma;
    let prev_ws = t == 0 || tokens[t - 1].kind == TokenKind::Whitespace;
    if f_comma || (p_comma && !prev_ws) {
        " "@
    } else {
        Seq::empty()
    }
}

/// One argument completion item.
pub open spec fn spec_is_arg_completion(
    c: Completion,
    tokens: Seq<Token>,
    t: int,
    k: InkArgKind,
) -> bool {
    let er = spec_completion_edit_range(
        tokens[t],
        tokens[t].kind == TokenKind::LParen || tokens[t].kind == TokenKind::Comma,
    );
    let sep = spec_arg_completion_sep(tokens, t);
    &&& c.label@ == spec_arg_insert_text(k)
    &&& c.range == er
    &&& c.edit.text@ == sep + spec_arg_insert_text(k)
    &&& c.edit.range == er
    &&& match spec_arg_insert_snippet(k) {
        Some(sn) => c.edit.snippet matches Some(s) && s@ == sep + sn,
        Option::None => c.edit.snippet is None,
    }
    &&& c.detail matches Some(d) && d@ == "ink! "@ + spec_arg_kind_name(k)
        + " attribute argument."@
}

/// What the argument-completion stage appends when the focus sits in an
/// ink! attribute's argument context: one completion per suggested
/// argument kind.
pub open spec fn spec_arg_completions_post(
    pre: Seq<Completion>,
    post: Seq<Completion>,
    file: InkFile,
    offset: int,
) -> bool {
    match spec_focused_token(file.tokens@, offset) {
        Option::None => post == pre,
        Some(t) => match spec_covering_attr_idx(file, offset) {
            Option::None => post == pre,
            Some((item_idx, attr_idx)) => {
                let tokens = file.tokens@;
                if !(file.items@[item_idx].attrs@[attr_idx] is Ink) {
                    post == pre
                } else {
                    let f_lparen = tokens[t].kind == TokenKind::LParen;
                    let f_comma = tokens[t].kind == TokenKind::Comma;
                    let p_lparen = spec_prev_non_trivia(tokens, t) matches Some(p) && tokens[p].kind
                        == TokenKind::LParen;
                    let p_comma = spec_prev_non_trivia(tokens, t) matches Some(p) && tokens[p].kind
                        == TokenKind::Comma;
                    if !(f_lparen || p_lparen || f_comma || p_comma) {
                        post == pre
                    } else {
                        let sugg = spec_arg_completion_kinds(file, t, item_idx, attr_idx, offset);
                        &&& spec_compl_appends(pre, post, sugg.len() as int)
                        &&& forall|k: int|
                            0 <= k < sugg.len() ==> spec_is_arg_completion(
                                #[trigger] post[pre.len() + k],
                                tokens,
                                t,
                                sugg[k],
                            )
                    }
                }
            },
        },
    }
}

/// Computes ink! attribute argument completions at the given offset: only
/// inside an ink! attribute and right after its opening parenthesis or a
/// comma, suggesting the attribute kind's valid sibling arguments (or the
/// annotated item's table for unknown attribute kinds), deduplicated,
/// scope-filtered and prefix-filtered.
pub fn argument_completions(results: &mut Vec<Completion>, file: &InkFile, offset: usize)
    requires
        file.wf(),
    ensures
        spec_arg_completions_post(old(results)@, final(results)@, *file, offset as int),
{
    proof {
        lemma_focused_token_props(file.tokens@, offset as int);
    }
    let t = match focused_token(file, offset) {
        Some(t) => t,
        None => {
            return ;
        },
    };
    let (item_idx, attr_idx) = match covering_attr_at_offset(file, offset) {
        Some(p) => p,
        None => {
            return ;
        },
    };
    let item = &file.items[item_idx];
    let x = match &item.attrs[attr_idx] {
        Attr::Ink(x) => x,
        Attr::Other(_) => {
            return ;
        },
    };
    let tok = &file.tokens[t];
    let f_lparen = tok.kind == TokenKind::LParen;
    let f_comma = tok.kind == TokenKind::Comma;
    let prev = prev_non_trivia(file, t);
    let p_lparen = match prev {
        Some(p) => file.tokens[p].kind == TokenKind::LParen,
        None => false,
    };
    let p_comma = match prev {
        Some(p) => file.tokens[p].kind == TokenKind::Comma,
        None => false,
    };
    if !(f_lparen || p_lparen || f_comma || p_comma) {
        return ;
    }
    let prev_ws = if t == 0 {
        true
    } else {
        file.tokens[t - 1].kind == TokenKind::Whitespace
    };
    let edit_range = if f_lparen || f_comma {
        TextRange { start: tok.range.end, end: tok.range.end }
    } else {
        tok.range
    };
    let sep: &'static str = if f_comma || (p_comma && !prev_ws) {
        " "
    } else {
        ""
    };
    proof {
        reveal_strlit("");
        assert(""@ =~= Seq::<char>::empty());
        assert(sep@ == spec_arg_completion_sep(file.tokens@, t as int));
    }

    // Suggests ink! attribute arguments based on the context.
    let s0 = if x.kind.is_unknown() {
        if item.kind != ItemKind::Other {
            valid_ink_args_by_item_kind(item.kind)
        } else {
            let mut v: Vec<InkArgKind> = Vec::new();
            v.push(InkArgKind::Anonymous);
            v.push(InkArgKind::Constructor);
            v.push(InkArgKind::Default);
            v.push(InkArgKind::Event);
            v.push(InkArgKind::Extension);
            v.push(InkArgKind::HandleStatus);
            v.push(InkArgKind::Impl);
            v.push(InkArgKind::Message);
            v.push(InkArgKind::Namespace);
            v.push(InkArgKind::Payable);
            v.push(InkArgKind::Selector);
            v.push(InkArgKind::Storage);
            v.push(InkArgKind::Topic);
            proof {
                assert(v@ =~= spec_fallback_arg_kinds());
            }
            v
        }
    } else {
        valid_sibling_ink_args(x.kind)
    };
    let s1 = remove_duplicate_ink_arg_suggestions(s0, item);
    let attr_is_known_macro = matches!(x.kind, InkAttributeKind::Macro(_)) && !x.kind.is_unknown();
    let s2 = if !attr_is_known_macro {
        crate::tables::remove_invalid_ink_arg_suggestions_for_parent_ink_scope(
            s1,
            file,
            item_idx,
        )
    } else {
        s1
    };
    let sugg = if !f_lparen && !f_comma {
        match token_prefix(tok, offset) {
            Some(pre) => retain_args_matching_prefix(s2, pre),
            None => s2,
        }
    } else {
        s2
    };
    proof {
        assert(sugg@ == spec_arg_completion_kinds(
            *file,
            t as int,
            item_idx as int,
            attr_idx as int,
            offset as int,
        ));
    }

    let ghost pre = results@;
    let mut k: usize = 0;
    while k < sugg.len()
        invariant
            t < file.tokens@.len(),
            *tok == file.tokens@[t as int],
            edit_range == spec_completion_edit_range(
                file.tokens@[t as int],
                file.tokens@[t as int].kind == TokenKind::LParen || file.tokens@[t as int].kind
                    == TokenKind::Comma,
            ),
            sep@ == spec_arg_completion_sep(file.tokens@, t as int),
            0 <= k <= sugg@.len(),
            spec_compl_appends(pre, results@, k as int),
            forall|j: int|
                0 <= j < k ==> spec_is_arg_completion(
                    #[trigger] results@[pre.len() + j],
                    file.tokens@,
                    t as int,
                    sugg@[j],
                ),
        decreases sugg@.len() - k,
    {
        let arg_kind = sugg[k];
        let (text_core, snippet_core) = ink_arg_insert_text(arg_kind);
        let label = ink_arg_insert_text(arg_kind).0;
        let text = str_concat(sep, text_core.as_str());
        let snippet = match &snippet_core {
            Some(sn) => Some(str_concat(sep, sn.as_str())),
            None => None,
        };
        let detail = str_concat3("ink! ", arg_kind.name_as_str(), " attribute argument.");
        results.push(
            Completion {
                label,
                range: edit_range,
                edit: TextEdit::replace_with_snippet(text, edit_range, snippet),
                detail: Some(detail),
            },
        );
        k += 1;
    }
}

/// The two completion stages chain into the final result.
pub open spec fn spec_completions_staged(
    file: InkFile,
    offset: int,
    r: Seq<Completion>,
    s1: Seq<Completion>,
) -> bool {
    &&& spec_macro_completions_post(Seq::empty(), s1, file, offset)
    &&& spec_arg_completions_post(s1, r, file, offset)
}

/// What `completions` returns: the macro completions followed by the
/// argument completions at the offset.
pub open spec fn spec_completions_result(file: InkFile, offset: int, r: Seq<Completion>) -> bool {
    exists|s1: Seq<Completion>| #[trigger] spec_completions_staged(file, offset, r, s1)
}

/// Computes ink! attribute completions at the given offset: attribute
/// macro completions followed by attribute argument completions.
pub fn completions(file: &InkFile, offset: usize) -> (r: Vec<Completion>)
    requires
        file.wf(),
    ensures
        spec_completions_result(*file, offset as int, r@),
{
    let mut results: Vec<Completion> = Vec::new();
    macro_completions(&mut results, file, offset);
    let ghost s1v = results@;
    argument_completions(&mut results, file, offset);
    proof {
        assert(spec_completions_result(*file, offset as int, results@)) by {
            assert(spec_completions_staged(*file, offset as int, results@, s1v));
        }
    }
    results
}

} // verus!
