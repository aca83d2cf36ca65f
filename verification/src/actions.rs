//! Item-based refactor/intent actions: attribute macro suggestions,
//! attribute argument suggestions, attribute flattening, and entity
//! suggestions, at a given focus range.

use vstd::prelude::*;
use vstd::string::StringExecFns;

use crate::arg::{spec_arg_kind_name, InkArg, InkArgKind};
use crate::attr::{spec_macro_display_name, spec_macro_path, InkAttribute, InkAttributeKind, InkMacroKind};
use crate::edit_builder::{
    ink_arg_insert_offset_and_affixes, ink_arg_insert_text, ink_attribute_insert_offset,
    join_args, sort_args, spec_arg_insert_snippet, spec_arg_insert_text, spec_attr_insert_offset,
    spec_extend_parts, spec_join_args, spec_sort_args,
};
use crate::strutil::{str_concat3};
use crate::tables::{
    child_has_attr_kind, file_has_attr_kind, item_has_attr_kind, item_has_ink_attrs,
    primary_ink_attr_idx, remove_duplicate_ink_arg_suggestions,
    remove_duplicate_ink_macro_suggestions, remove_conflicting_ink_arg_suggestions,
    remove_invalid_ink_arg_suggestions_for_parent_ink_scope,
    remove_invalid_ink_macro_suggestions_for_parent_cfg_scope,
    remove_invalid_ink_macro_suggestions_for_parent_ink_scope, spec_child_has_attr_kind,
    spec_file_has_attr_kind, spec_is_primary_attr_idx, spec_item_has_arg_kind,
    spec_item_has_attr_kind, spec_item_has_ink_attrs, spec_macro_valid_in_cfg,
    spec_macro_valid_in_scope, spec_arg_valid_in_scope, spec_primary_attr_kind,
    spec_primary_idx_of, spec_retained, spec_valid_args_for, spec_valid_macros_for,
    spec_valid_sibling_args, valid_ink_args_by_item_kind, valid_ink_macros_by_item_kind,
    valid_sibling_ink_args,
};
use crate::text_edit::{Action, ActionKind, TextEdit};
use crate::tree::{
    spec_attr_range, spec_covering_item, spec_covering_token, spec_in_cfg_scope,
    spec_item_is_cfg_e2e, spec_item_is_cfg_test, spec_scope_of, Attr, InkFile, Item, ItemKind,
    TokenKind,
};
use crate::TextRange;

verus! {

/// An action that inserts `text` at `offset`, labeled `label`, anchored at
/// `range`, with no snippet.
pub open spec fn spec_is_insert_action(
    a: Action,
    label: Seq<char>,
    text: Seq<char>,
    offset: int,
    range: TextRange,
) -> bool {
    &&& a.label@ == label
    &&& a.kind == ActionKind::Refactor
    &&& a.range == range
    &&& a.edits@.len() == 1
    &&& a.edits@[0].text@ == text
    &&& a.edits@[0].range.start as int == offset
    &&& a.edits@[0].range.end as int == offset
    &&& a.edits@[0].snippet is None
}

/// `post` extends `pre` by exactly the given count.
pub open spec fn spec_appends(pre: Seq<Action>, post: Seq<Action>, n: int) -> bool {
    post.len() == pre.len() + n && forall|k: int|
        #![trigger post[k]]
        #![trigger pre[k]]
        0 <= k < pre.len() ==> post[k] == pre[k]
}

/// The label of an "add attribute macro" action.
pub open spec fn spec_macro_action_label(m: InkMacroKind) -> Seq<char> {
    "Add ink! "@ + spec_macro_display_name(m) + " attribute macro."@
}

/// The inserted text of an "add attribute macro" action.
pub open spec fn spec_macro_attr_text(m: InkMacroKind) -> Seq<char> {
    "#["@ + spec_macro_path(m) + "]"@
}

/// The macro suggestion list for the item at `idx`: the node-kind table,
/// with duplicates, scope-invalid and `cfg`-gated kinds removed.
pub open spec fn spec_macro_suggestions(file: InkFile, idx: int) -> Seq<InkMacroKind> {
    let item = file.items@[idx];
    let s0 = spec_valid_macros_for(item.kind);
    let s1 = spec_retained(s0, |m: InkMacroKind| !crate::tables::spec_item_has_macro_kind(item, m));
    let s2 = spec_retained(
        s1,
        |m: InkMacroKind| spec_macro_valid_in_scope(m, spec_scope_of(file.items@, idx)),
    );
    spec_retained(
        s2,
        |m: InkMacroKind|
            spec_macro_valid_in_cfg(
                m,
                spec_in_cfg_scope(file.items@, idx, false),
                spec_in_cfg_scope(file.items@, idx, true),
            ),
    )
}

/// What the macro-suggestion stage appends: nothing when the item already
/// carries an ink! attribute; otherwise one insert action per suggested
/// macro kind, inserting the bare attribute text before the item.
pub open spec fn spec_macro_actions_post(
    pre: Seq<Action>,
    post: Seq<Action>,
    file: InkFile,
    idx: int,
    range: TextRange,
) -> bool {
    if spec_item_has_ink_attrs(file.items@[idx]) {
        post == pre
    } else {
        let sugg = spec_macro_suggestions(file, idx);
        &&& spec_appends(pre, post, sugg.len() as int)
        &&& forall|k: int|
            0 <= k < sugg.len() ==> spec_is_insert_action(
                #[trigger] post[pre.len() + k],
                spec_macro_action_label(sugg[k]),
                spec_macro_attr_text(sugg[k]),
                spec_attr_insert_offset(file.items@[idx]),
                range,
            )
    }
}

/// Computes ink! attribute macro actions for the item at `idx`: macros are
/// suggested only for items without any ink! attribute, from the node-kind
/// table, filtered for duplicates, scope and `cfg`-gating.
pub fn ink_macro_actions(results: &mut Vec<Action>, file: &InkFile, idx: usize, range: TextRange)
    requires
        file.wf(),
        idx < file.items@.len(),
    ensures
        spec_macro_actions_post(old(results)@, final(results)@, *file, idx as int, range),
{
    let item = &file.items[idx];
    // Only suggest ink! attribute macros if the item has no ink! attributes.
    if item_has_ink_attrs(item) {
        return ;
    }
    let s0 = valid_ink_macros_by_item_kind(item.kind);
    let s1 = remove_duplicate_ink_macro_suggestions(s0, item);
    let s2 = remove_invalid_ink_macro_suggestions_for_parent_ink_scope(s1, file, idx);
    let sugg = remove_invalid_ink_macro_suggestions_for_parent_cfg_scope(s2, file, idx);
    let insert_offset = ink_attribute_insert_offset(item);
    let ghost pre = results@;
    let mut k: usize = 0;
    while k < sugg.len()
        invariant
            file.wf(),
            idx < file.items@.len(),
            0 <= k <= sugg@.len(),
            sugg@ == spec_macro_suggestions(*file, idx as int),
            insert_offset as int == spec_attr_insert_offset(file.items@[idx as int]),
            spec_appends(pre, results@, k as int),
            forall|j: int|
                0 <= j < k ==> spec_is_insert_action(
                    #[trigger] results@[pre.len() + j],
                    spec_macro_action_label(sugg@[j]),
                    spec_macro_attr_text(sugg@[j]),
                    spec_attr_insert_offset(file.items@[idx as int]),
                    range,
                ),
        decreases sugg@.len() - k,
    {
        let m = sugg[k];
        let label = str_concat3("Add ink! ", m.display_name(), " attribute macro.");
        let text = str_concat3("#[", m.path_as_str(), "]");
        results.push(
            Action {
                label,
                kind: ActionKind::Refactor,
                range,
                edits: vec_of_one(TextEdit::insert(text, insert_offset)),
            },
        );
        k += 1;
    }
}

/// A one-element vector.
fn vec_of_one(e: TextEdit) -> (r: Vec<TextEdit>)
    ensures
        r@.len() == 1,
        r@[0] == e,
{
    let mut v: Vec<TextEdit> = Vec::new();
    v.push(e);
    v
}

/// The label of an "add attribute argument" action.
pub open spec fn spec_arg_action_label(k: InkArgKind) -> Seq<char> {
    "Add ink! "@ + spec_arg_kind_name(k) + " attribute argument."@
}

/// The argument suggestion list for the item at `idx`: the sibling table of
/// the primary attribute (or the node-kind table when there is none), with
/// duplicates, conflicts and — unless a macro attribute governs the item —
/// scope-invalid kinds removed.
pub open spec fn spec_arg_suggestions(file: InkFile, idx: int) -> Seq<InkArgKind> {
    let item = file.items@[idx];
    let s0 = match spec_primary_attr_kind(item.attrs@) {
        Some(kind) => spec_valid_sibling_args(kind),
        Option::None => spec_valid_args_for(item.kind),
    };
    let s1 = spec_retained(s0, |k: InkArgKind| !spec_item_has_arg_kind(item, k));
    let s2 = match spec_primary_attr_kind(item.attrs@) {
        Some(kind) => if kind != InkAttributeKind::Macro(InkMacroKind::Unknown) && kind
            != InkAttributeKind::Arg(InkArgKind::Unknown) {
            spec_retained(s1, |k: InkArgKind| spec_valid_sibling_args(kind).contains(k))
        } else {
            s1
        },
        Option::None => s1,
    };
    if (match spec_primary_attr_kind(item.attrs@) {
        Some(kind) => !(kind is Macro),
        Option::None => true,
    }) {
        spec_retained(s2, |k: InkArgKind| spec_arg_valid_in_scope(k, spec_scope_of(file.items@, idx)))
    } else {
        s2
    }
}

/// The shape of one "add attribute argument" action when a primary
/// attribute exists and can host the argument: the argument text (plus
/// affixes) lands just before the attribute's closing delimiter.
pub open spec fn spec_arg_action_extends(a: Action, k: InkArgKind, attr: InkAttribute) -> bool {
    match spec_extend_parts(attr) {
        Some((o, pre, suf)) => {
            &&& a.label@ == spec_arg_action_label(k)
            &&& a.kind == ActionKind::Refactor
            &&& a.range == attr.range
            &&& a.edits@.len() == 1
            &&& a.edits@[0].range.start as int == o
            &&& a.edits@[0].range.end as int == o
            &&& a.edits@[0].text@ == pre + spec_arg_insert_text(k) + suf
            &&& match spec_arg_insert_snippet(k) {
                Some(sn) => a.edits@[0].snippet matches Some(s) && s@ == pre + sn + suf,
                Option::None => a.edits@[0].snippet is None,
            }
        },
        Option::None => false,
    }
}

/// The shape of one "add attribute argument" action when a fresh attribute
/// is inserted before the item.
pub open spec fn spec_arg_action_new(
    a: Action,
    k: InkArgKind,
    item: Item,
    fallback: TextRange,
) -> bool {
    &&& a.label@ == spec_arg_action_label(k)
    &&& a.kind == ActionKind::Refactor
    &&& a.range == fallback
    &&& a.edits@.len() == 1
    &&& a.edits@[0].range.start as int == spec_attr_insert_offset(item)
    &&& a.edits@[0].range.end as int == spec_attr_insert_offset(item)
    &&& a.edits@[0].text@ == "#[ink("@ + spec_arg_insert_text(k) + ")]"@
    &&& match spec_arg_insert_snippet(k) {
        Some(sn) => a.edits@[0].snippet matches Some(s) && s@ == "#[ink("@ + sn + ")]"@,
        Option::None => a.edits@[0].snippet is None,
    }
}

/// The shape of one "add attribute argument" action: extending the primary
/// attribute when one exists and can be extended, inserting a fresh
/// attribute otherwise.
pub open spec fn spec_arg_action_ok(
    a: Action,
    k: InkArgKind,
    item: Item,
    fallback: TextRange,
) -> bool {
    if spec_item_has_ink_attrs(item) {
        let attr = item.attrs@[spec_primary_idx_of(item.attrs@)]->Ink_0;
        if spec_extend_parts(attr) is Some {
            spec_arg_action_extends(a, k, attr)
        } else {
            spec_arg_action_new(a, k, item, fallback)
        }
    } else {
        spec_arg_action_new(a, k, item, fallback)
    }
}

/// What the argument-suggestion stage appends: one action per suggested
/// argument kind.
pub open spec fn spec_arg_actions_post(
    pre: Seq<Action>,
    post: Seq<Action>,
    file: InkFile,
    idx: int,
    range: TextRange,
) -> bool {
    let sugg = spec_arg_suggestions(file, idx);
    &&& spec_appends(pre, post, sugg.len() as int)
    &&& forall|k: int|
        0 <= k < sugg.len() ==> spec_arg_action_ok(
            #[trigger] post[pre.len() + k],
            sugg[k],
            file.items@[idx],
            range,
        )
}

/// Computes ink! attribute argument actions for the item at `idx`: argument
/// kinds are suggested from the primary attribute's sibling table (or the
/// node-kind table), deduplicated, conflict-filtered and scope-filtered, and
/// each suggestion either extends the primary attribute or inserts a new
/// `#[ink(...)]` attribute before the item.
pub fn ink_arg_actions(results: &mut Vec<Action>, file: &InkFile, idx: usize, range: TextRange)
    requires
        file.wf(),
        idx < file.items@.len(),
    ensures
        spec_arg_actions_post(old(results)@, final(results)@, *file, idx as int, range),
{
    let item = &file.items[idx];
    let primary = primary_ink_attr_idx(item);
    let s0 = match primary {
        Some(i) => match &item.attrs[i] {
            Attr::Ink(x) => valid_sibling_ink_args(x.kind),
            Attr::Other(_) => {
                proof {
                    assert(false);
                }
                Vec::new()
            },
        },
        None => valid_ink_args_by_item_kind(item.kind),
    };
    let s1 = remove_duplicate_ink_arg_suggestions(s0, item);
    let s2 = remove_conflicting_ink_arg_suggestions(s1, item);
    let primary_is_macro = match primary {
        Some(i) => match &item.attrs[i] {
            Attr::Ink(x) => matches!(x.kind, InkAttributeKind::Macro(_)),
            Attr::Other(_) => false,
        },
        None => false,
    };
    let sugg = if !primary_is_macro {
        remove_invalid_ink_arg_suggestions_for_parent_ink_scope(s2, file, idx)
    } else {
        s2
    };
    proof {
        assert(sugg@ == spec_arg_suggestions(*file, idx as int));
    }
    let ghost pre = results@;
    let mut k: usize = 0;
    while k < sugg.len()
        invariant
            file.wf(),
            idx < file.items@.len(),
            item == &file.items@[idx as int],
            0 <= k <= sugg@.len(),
            sugg@ == spec_arg_suggestions(*file, idx as int),
            match primary {
                Some(i) => spec_is_primary_attr_idx(item.attrs@, i as int) && i as int
                    == spec_primary_idx_of(item.attrs@),
                None => !spec_item_has_ink_attrs(*item),
            },
            spec_appends(pre, results@, k as int),
            forall|j: int|
                0 <= j < k ==> spec_arg_action_ok(
                    #[trigger] results@[pre.len() + j],
                    sugg@[j],
                    file.items@[idx as int],
                    range,
                ),
        decreases sugg@.len() - k,
    {
        let arg_kind = sugg[k];
        let (text_core, snippet_core) = ink_arg_insert_text(arg_kind);
        let label = str_concat3("Add ink! ", arg_kind.name_as_str(), " attribute argument.");
        let mut pushed = false;
        match primary {
            Some(i) => {
                match &item.attrs[i] {
                    Attr::Ink(x) => {
                        match ink_arg_insert_offset_and_affixes(x) {
                            Some((offset, prefix, suffix)) => {
                                let text = str_concat3(prefix, text_core.as_str(), suffix);
                                let snippet = match &snippet_core {
                                    Some(sn) => Some(str_concat3(prefix, sn.as_str(), suffix)),
                                    None => None,
                                };
                                results.push(
                                    Action {
                                        label,
                                        kind: ActionKind::Refactor,
                                        range: x.range,
                                        edits: vec_of_one(
                                            TextEdit::insert_with_snippet(text, offset, snippet),
                                        ),
                                    },
                                );
                                pushed = true;
                            },
                            None => {},
                        }
                    },
                    Attr::Other(_) => {
                        proof {
                            assert(false);
                        }
                    },
                }
            },
            None => {},
        }
        if !pushed {
            let insert_offset = ink_attribute_insert_offset(item);
            let text = str_concat3("#[ink(", text_core.as_str(), ")]");
            let snippet = match &snippet_core {
                Some(sn) => Some(str_concat3("#[ink(", sn.as_str(), ")]")),
                None => None,
            };
            let label = str_concat3("Add ink! ", arg_kind.name_as_str(), " attribute argument.");
            results.push(
                Action {
                    label,
                    kind: ActionKind::Refactor,
                    range,
                    edits: vec_of_one(TextEdit::insert_with_snippet(text, insert_offset, snippet)),
                },
            );
        }
        k += 1;
    }
}

/// The arguments contributed by every argument-kind ink! attribute other
/// than the primary one, in source order.
pub open spec fn spec_flatten_extra_args(attrs: Seq<Attr>, p: int) -> Seq<InkArg>
    decreases attrs.len(),
{
    if attrs.len() == 0 {
        Seq::empty()
    } else {
        let rest = spec_flatten_extra_args(attrs.drop_last(), p);
        if attrs.len() - 1 == p {
            rest
        } else {
            match attrs.last() {
                Attr::Ink(x) => if x.kind is Arg {
                    rest + x.args@
                } else {
                    rest
                },
                Attr::Other(_) => rest,
            }
        }
    }
}

/// The positions of every argument-kind ink! attribute other than the
/// primary one, in source order.
pub open spec fn spec_other_attr_idxs(attrs: Seq<Attr>, p: int) -> Seq<int>
    decreases attrs.len(),
{
    if attrs.len() == 0 {
        Seq::empty()
    } else {
        let rest = spec_other_attr_idxs(attrs.drop_last(), p);
        if attrs.len() - 1 == p {
            rest
        } else {
            match attrs.last() {
                Attr::Ink(x) => if x.kind is Arg {
                    rest + seq![attrs.len() - 1]
                } else {
                    rest
                },
                Attr::Other(_) => rest,
            }
        }
    }
}

/// Every collected position denotes an argument-kind ink! attribute other
/// than the primary one.
pub proof fn lemma_other_idxs_props(attrs: Seq<Attr>, p: int)
    ensures
        forall|k: int|
            0 <= k < spec_other_attr_idxs(attrs, p).len() ==> {
                let o = #[trigger] spec_other_attr_idxs(attrs, p)[k];
                &&& 0 <= o < attrs.len()
                &&& o != p
                &&& attrs[o] is Ink
            },
    decreases attrs.len(),
{
    if attrs.len() > 0 {
        lemma_other_idxs_props(attrs.drop_last(), p);
    }
}

/// The whole argument list the flatten action renders: the primary
/// attribute's own arguments followed by every other argument-kind
/// attribute's arguments.
pub open spec fn spec_flatten_collected(attrs: Seq<Attr>, p: int) -> Seq<InkArg> {
    attrs[p]->Ink_0.args@ + spec_flatten_extra_args(attrs, p)
}

/// The attribute path the flatten action renders: the macro path for a
/// macro-kind primary, the bare `ink` namespace otherwise.
pub open spec fn spec_flatten_path(attrs: Seq<Attr>, p: int) -> Seq<char> {
    match attrs[p]->Ink_0.kind {
        InkAttributeKind::Macro(m) => spec_macro_path(m),
        InkAttributeKind::Arg(_) => "ink"@,
    }
}

/// The replacement text of the flatten action: one attribute holding all
/// collected arguments, sorted by priority (stable on ties) and rendered
/// canonically.
pub open spec fn spec_flatten_text(attrs: Seq<Attr>, p: int) -> Seq<char> {
    "#["@ + spec_flatten_path(attrs, p) + "("@ + spec_join_args(
        spec_sort_args(spec_flatten_collected(attrs, p)),
    ) + ")]"@
}

/// What the flatten stage appends: nothing unless the item carries, besides
/// its primary ink! attribute, at least one more argument-kind ink!
/// attribute; otherwise one action that replaces the primary attribute with
/// the flattened attribute and deletes each other argument-kind attribute.
pub open spec fn spec_flatten_post(
    pre: Seq<Action>,
    post: Seq<Action>,
    item: Item,
    range: TextRange,
) -> bool {
    if !spec_item_has_ink_attrs(item) {
        post == pre
    } else {
        let p = spec_primary_idx_of(item.attrs@);
        let others = spec_other_attr_idxs(item.attrs@, p);
        if others.len() == 0 {
            post == pre
        } else {
            &&& spec_appends(pre, post, 1)
            &&& post[pre.len() as int].label@ == "Flatten ink! attribute arguments."@
            &&& post[pre.len() as int].kind == ActionKind::Refactor
            &&& post[pre.len() as int].range == range
            &&& post[pre.len() as int].edits@.len() == 1 + others.len()
            &&& post[pre.len() as int].edits@[0].text@ == spec_flatten_text(item.attrs@, p)
            &&& post[pre.len() as int].edits@[0].range == spec_attr_range(item.attrs@[p])
            &&& post[pre.len() as int].edits@[0].snippet is None
            &&& forall|k: int|
                0 <= k < others.len() ==> {
                    let e = #[trigger] post[pre.len() as int].edits@[k + 1];
                    &&& e.text@ == Seq::<char>::empty()
                    &&& e.range == spec_attr_range(item.attrs@[others[k]])
                    &&& e.snippet is None
                }
        }
    }
}

/// Law: flattening is idempotent on its result.  The flatten action leaves
/// the item with a single ink! attribute; on an attribute list holding at
/// most one ink! attribute no further flatten action is offered.
pub proof fn lemma_flatten_idempotent(attrs: Seq<Attr>)
    requires
        forall|i: int, j: int|
            0 <= i < attrs.len() && 0 <= j < attrs.len() && (#[trigger] attrs[i]) is Ink && (
            #[trigger] attrs[j]) is Ink ==> i == j,
    ensures
        spec_other_attr_idxs(attrs, spec_primary_idx_of(attrs)).len() == 0,
{
    let p = spec_primary_idx_of(attrs);
    lemma_other_idxs_props(attrs, p);
    let others = spec_other_attr_idxs(attrs, p);
    if others.len() > 0 {
        let o = others[0];
        assert(attrs[o] is Ink && o != p);
        if exists|i: int| crate::tables::spec_is_primary_attr_idx(attrs, i) {
            assert(crate::tables::spec_is_primary_attr_idx(attrs, p));
            assert(attrs[p] is Ink);
        } else {
            // With no primary position at all, `o` itself would be one:
            // it is the only ink! attribute in the list.
            assert forall|j: int|
                0 <= j < attrs.len() && (#[trigger] attrs[j]) is Ink implies crate::tables::spec_attr_rank(
                attrs[o],
            ) <= crate::tables::spec_attr_rank(attrs[j]) by {
                assert(j == o);
            }
            assert(crate::tables::spec_is_primary_attr_idx(attrs, o));
        }
    }
}

/// Computes the action for "flattening" the ink! attributes of the item:
/// offered only when the item carries, besides its primary ink! attribute,
/// at least one more argument-kind ink! attribute.
pub fn flatten_attrs(results: &mut Vec<Action>, item: &Item, range: TextRange)
    ensures
        spec_flatten_post(old(results)@, final(results)@, *item, range),
{
    let p = match primary_ink_attr_idx(item) {
        Some(p) => p,
        None => {
            return ;
        },
    };
    let ghost attrs = item.attrs@;
    // Collects the other argument-kind attributes and their arguments.
    let mut extra: Vec<InkArg> = Vec::new();
    let mut other_idxs: Vec<usize> = Vec::new();
    let mut i: usize = 0;
    proof {
        assert(attrs.take(0) =~= Seq::<Attr>::empty());
    }
    while i < item.attrs.len()
        invariant
            0 <= i <= attrs.len(),
            attrs == item.attrs@,
            p < attrs.len(),
            extra@ == spec_flatten_extra_args(attrs.take(i as int), p as int),
            other_idxs@.len() == spec_other_attr_idxs(attrs.take(i as int), p as int).len(),
            forall|j: int|
                0 <= j < other_idxs@.len() ==> other_idxs@[j] as int == spec_other_attr_idxs(
                    attrs.take(i as int),
                    p as int,
                )[j],
        decreases attrs.len() - i,
    {
        proof {
            assert(attrs.take(i + 1).drop_last() =~= attrs.take(i as int));
            assert(attrs.take(i + 1).last() == attrs[i as int]);
        }
        if i != p {
            match &item.attrs[i] {
                Attr::Ink(x) => {
                    if matches!(x.kind, InkAttributeKind::Arg(_)) {
                        other_idxs.push(i);
                        let ghost extra0 = extra@;
                        let mut j: usize = 0;
                        while j < x.args.len()
                            invariant
                                0 <= j <= x.args@.len(),
                                extra@ == extra0 + x.args@.take(j as int),
                            decreases x.args@.len() - j,
                        {
                            extra.push(x.args[j].clone());
                            proof {
                                assert(extra@ =~= extra0 + x.args@.take(j + 1));
                            }
                            j += 1;
                        }
                        proof {
                            assert(x.args@.take(x.args@.len() as int) =~= x.args@);
                            assert(extra@ =~= spec_flatten_extra_args(attrs.take(i + 1), p as int));
                        }
                    }
                },
                Attr::Other(_) => {},
            }
        }
        proof {
            assert(extra@ == spec_flatten_extra_args(attrs.take(i + 1), p as int));
        }
        i += 1;
    }
    proof {
        assert(attrs.take(attrs.len() as int) =~= attrs);
    }
    if other_idxs.len() == 0 {
        return ;
    }

    let primary_attr = match &item.attrs[p] {
        Attr::Ink(x) => x,
        Attr::Other(_) => {
            proof {
                assert(false);
            }
            return ;
        },
    };

    // All collected arguments: the primary's own, then the others'.
    let mut collected: Vec<InkArg> = Vec::new();
    let mut j: usize = 0;
    while j < primary_attr.args.len()
        invariant
            0 <= j <= primary_attr.args@.len(),
            collected@ == primary_attr.args@.take(j as int),
        decreases primary_attr.args@.len() - j,
    {
        collected.push(primary_attr.args[j].clone());
        proof {
            assert(collected@ =~= primary_attr.args@.take(j + 1));
        }
        j += 1;
    }
    proof {
        assert(primary_attr.args@.take(primary_attr.args@.len() as int) =~= primary_attr.args@);
    }
    let mut j: usize = 0;
    while j < extra.len()
        invariant
            0 <= j <= extra@.len(),
            collected@ == primary_attr.args@ + extra@.take(j as int),
        decreases extra@.len() - j,
    {
        collected.push(extra[j].clone());
        proof {
            assert(collected@ =~= primary_attr.args@ + extra@.take(j + 1));
        }
        j += 1;
    }
    proof {
        assert(extra@.take(extra@.len() as int) =~= extra@);
        assert(collected@ == spec_flatten_collected(attrs, p as int));
    }

    let sorted = sort_args(collected);
    let joined = join_args(&sorted);
    let path_str: &str = match &primary_attr.kind {
        InkAttributeKind::Macro(m) => m.path_as_str(),
        InkAttributeKind::Arg(_) => "ink",
    };
    let text = crate::strutil::str_concat5("#[", path_str, "(", joined.as_str(), ")]");
    proof {
        assert(text@ =~= spec_flatten_text(attrs, p as int));
    }

    let mut edits: Vec<TextEdit> = Vec::new();
    edits.push(TextEdit::replace(text, primary_attr.range));
    let mut k: usize = 0;
    while k < other_idxs.len()
        invariant
            0 <= k <= other_idxs@.len(),
            attrs == item.attrs@,
            p < attrs.len(),
            other_idxs@.len() == spec_other_attr_idxs(attrs, p as int).len(),
            forall|j2: int|
                0 <= j2 < other_idxs@.len() ==> other_idxs@[j2] as int == spec_other_attr_idxs(
                    attrs,
                    p as int,
                )[j2],
            edits@.len() == 1 + k,
            edits@[0].text@ == spec_flatten_text(attrs, p as int),
            edits@[0].range == spec_attr_range(attrs[p as int]),
            edits@[0].snippet is None,
            forall|j2: int|
                0 <= j2 < k ==> {
                    let e = #[trigger] edits@[j2 + 1];
                    &&& e.text@ == Seq::<char>::empty()
                    &&& e.range == spec_attr_range(attrs[spec_other_attr_idxs(attrs, p as int)[j2]])
                    &&& e.snippet is None
                },
        decreases other_idxs@.len() - k,
    {
        proof {
            lemma_other_idxs_props(attrs, p as int);
        }
        let oi = other_idxs[k];
        edits.push(TextEdit::delete(item.attrs[oi].attr_range()));
        k += 1;
    }
    proof {
        crate::tables::lemma_primary_attr_idx_unique(
            attrs,
            p as int,
            spec_primary_idx_of(attrs),
        );
    }
    results.push(
        Action {
            label: String::from_str("Flatten ink! attribute arguments."),
            kind: ActionKind::Refactor,
            range,
            edits,
        },
    );
}

/// Whether some direct child of the item at `idx` is a type alias named
/// `ErrorCode`.
pub open spec fn spec_has_error_code_child(file: InkFile, idx: int) -> bool {
    exists|j: int|
        #![trigger file.items@[j]]
        {
            &&& 0 <= j < file.items@.len()
            &&& file.items@[j].parent == Some(idx as usize)
            &&& file.items@[j].kind == ItemKind::TypeAlias
            &&& file.items@[j].name matches Some(n) && n@ == "ErrorCode"@
        }
}

/// Decides `spec_has_error_code_child`.
fn has_error_code_child(file: &InkFile, idx: usize) -> (r: bool)
    ensures
        r == spec_has_error_code_child(*file, idx as int),
{
    let mut j: usize = 0;
    while j < file.items.len()
        invariant
            0 <= j <= file.items@.len(),
            forall|i: int|
                0 <= i < j ==> !((#[trigger] file.items@[i]).parent == Some(idx)
                    && file.items@[i].kind == ItemKind::TypeAlias && (
                file.items@[i].name matches Some(n) && n@ == "ErrorCode"@)),
        decreases file.items@.len() - j,
    {
        let item = &file.items[j];
        let is_child = match item.parent {
            Some(p) => p == idx,
            None => false,
        };
        if is_child && item.kind == ItemKind::TypeAlias {
            match &item.name {
                Some(n) => {
                    proof {
                        reveal_strlit("ErrorCode");
                    }
                    if crate::strutil::str_eq(n.as_str(), "ErrorCode") {
                        return true;
                    }
                },
                None => {},
            }
        }
        j += 1;
    }
    false
}

/// The entity insertion offset: the supplied body offset when one is given,
/// else just before the item's terminating token, else the item's end.
pub open spec fn spec_entity_insert_offset(item: Item, offset: Option<usize>) -> int {
    match offset {
        Some(o) => o as int,
        Option::None => match item.terminal_range {
            Some(t) => t.start as int,
            Option::None => item.range.end as int,
        },
    }
}

/// The (label, inserted text) pairs of the entity actions offered for the
/// item at `idx`: a contract module offers its missing storage plus event,
/// constructor and message; a test-configured module offers test stubs; an
/// eligible `impl` block offers constructor and message; a chain extension
/// trait offers its missing `ErrorCode` type and an extension; a trait
/// definition offers a message declaration; an event struct offers a topic
/// field.
pub open spec fn spec_entity_templates(file: InkFile, idx: int) -> Seq<(Seq<char>, Seq<char>)> {
    let item = file.items@[idx];
    match item.kind {
        ItemKind::Module => if spec_item_has_attr_kind(
            item,
            InkAttributeKind::Macro(InkMacroKind::Contract),
        ) {
            (if !spec_child_has_attr_kind(file, idx, InkAttributeKind::Arg(InkArgKind::Storage)) {
                seq![
                    (
                        "Add ink! storage `struct`."@,
                        "\n#[ink(storage)]\npub struct Storage {}\n"@,
                    ),
                ]
            } else {
                Seq::empty()
            }) + seq![
                ("Add ink! event `struct`."@, "\n#[ink(event)]\npub struct Event {}\n"@),
                (
                    "Add ink! constructor `fn`."@,
                    "\n#[ink(constructor)]\npub fn new() -> Self {\n}\n"@,
                ),
                (
                    "Add ink! message `fn`."@,
                    "\n#[ink(message)]\npub fn message(&self) {\n}\n"@,
                ),
            ]
        } else {
            (if spec_item_is_cfg_test(item) {
                seq![("Add ink! test `fn`."@, "\n#[ink::test]\nfn it_works() {\n}\n"@)]
            } else {
                Seq::empty()
            }) + (if spec_item_is_cfg_e2e(item) {
                seq![
                    (
                        "Add ink! e2e test `fn`."@,
                        "\n#[ink_e2e::test]\nasync fn it_works(mut client: Client) {\n}\n"@,
                    ),
                ]
            } else {
                Seq::empty()
            })
        },
        ItemKind::Impl => if !item.is_trait_impl && (spec_item_has_arg_kind(item, InkArgKind::Impl)
            || spec_child_has_attr_kind(file, idx, InkAttributeKind::Arg(InkArgKind::Constructor))
            || spec_child_has_attr_kind(file, idx, InkAttributeKind::Arg(InkArgKind::Message)) || (
        item.parent matches Some(pp) && spec_item_has_attr_kind(
            file.items@[pp as int],
            InkAttributeKind::Macro(InkMacroKind::Contract),
        ))) {
            seq![
                (
                    "Add ink! constructor `fn`."@,
                    "\n#[ink(constructor)]\npub fn new() -> Self {\n}\n"@,
                ),
                (
                    "Add ink! message `fn`."@,
                    "\n#[ink(message)]\npub fn message(&self) {\n}\n"@,
                ),
            ]
        } else {
            Seq::empty()
        },
        ItemKind::Trait => match spec_primary_attr_kind(item.attrs@) {
            Some(InkAttributeKind::Macro(InkMacroKind::ChainExtension)) => (
            if !spec_has_error_code_child(file, idx) {
                seq![
                    (
                        "Add `ErrorCode` type for ink! chain extension."@,
                        "\ntype ErrorCode = ();\n"@,
                    ),
                ]
            } else {
                Seq::empty()
            }) + seq![
                ("Add ink! extension `fn`."@, "\n#[ink(extension = 1)]\nfn extension();\n"@),
            ],
            Some(InkAttributeKind::Macro(InkMacroKind::TraitDefinition)) => seq![
                (
                    "Add ink! message declaration."@,
                    "\n#[ink(message)]\nfn message(&self);\n"@,
                ),
            ],
            _ => Seq::empty(),
        },
        ItemKind::Struct => if spec_item_has_attr_kind(
            item,
            InkAttributeKind::Arg(InkArgKind::Event),
        ) {
            seq![("Add ink! topic `field`."@, "\n#[ink(topic)]\ntopic: u32,\n"@)]
        } else {
            Seq::empty()
        },
        _ => Seq::empty(),
    }
}

/// What the entity stage appends: one insert action per offered template,
/// at the entity insertion offset.
pub open spec fn spec_entity_actions_post(
    pre: Seq<Action>,
    post: Seq<Action>,
    file: InkFile,
    idx: int,
    offset: Option<usize>,
) -> bool {
    let ts = spec_entity_templates(file, idx);
    let o = spec_entity_insert_offset(file.items@[idx], offset);
    &&& spec_appends(pre, post, ts.len() as int)
    &&& forall|k: int|
        0 <= k < ts.len() ==> spec_is_insert_action(
            #[trigger] post[pre.len() + k],
            ts[k].0,
            ts[k].1,
            o,
            TextRange { start: o as usize, end: o as usize },
        )
}

/// Appends one entity insert action.
fn push_entity_action(
    results: &mut Vec<Action>,
    label: &'static str,
    text: &'static str,
    offset: usize,
)
    ensures
        final(results)@.len() == old(results)@.len() + 1,
        forall|k: int| 0 <= k < old(results)@.len() ==> final(results)@[k] == old(results)@[k],
        spec_is_insert_action(
            final(results)@[old(results)@.len() as int],
            label@,
            text@,
            offset as int,
            TextRange { start: offset, end: offset },
        ),
{
    results.push(
        Action {
            label: String::from_str(label),
            kind: ActionKind::Refactor,
            range: TextRange { start: offset, end: offset },
            edits: vec_of_one(TextEdit::insert(String::from_str(text), offset)),
        },
    );
}

/// Computes the entity actions for the item at `idx` (see
/// `spec_entity_templates` for what each item kind offers).
pub fn item_ink_entity_actions(
    results: &mut Vec<Action>,
    file: &InkFile,
    idx: usize,
    insert_offset_option: Option<usize>,
)
    requires
        file.wf(),
        idx < file.items@.len(),
    ensures
        spec_entity_actions_post(
            old(results)@,
            final(results)@,
            *file,
            idx as int,
            insert_offset_option,
        ),
{
    let item = &file.items[idx];
    let offset = match insert_offset_option {
        Some(o) => o,
        None => match &item.terminal_range {
            Some(t) => t.start,
            None => item.range.end,
        },
    };
    match item.kind {
        ItemKind::Module => {
            if item_has_attr_kind(item, InkAttributeKind::Macro(InkMacroKind::Contract)) {
                if !child_has_attr_kind(file, idx, InkAttributeKind::Arg(InkArgKind::Storage)) {
                    push_entity_action(
                        results,
                        "Add ink! storage `struct`.",
                        "\n#[ink(storage)]\npub struct Storage {}\n",
                        offset,
                    );
                }
                push_entity_action(
                    results,
                    "Add ink! event `struct`.",
                    "\n#[ink(event)]\npub struct Event {}\n",
                    offset,
                );
                push_entity_action(
                    results,
                    "Add ink! constructor `fn`.",
                    "\n#[ink(constructor)]\npub fn new() -> Self {\n}\n",
                    offset,
                );
                push_entity_action(
                    results,
                    "Add ink! message `fn`.",
                    "\n#[ink(message)]\npub fn message(&self) {\n}\n",
                    offset,
                );
            } else {
                if crate::tree::item_is_cfg_test(item) {
                    push_entity_action(
                        results,
                        "Add ink! test `fn`.",
                        "\n#[ink::test]\nfn it_works() {\n}\n",
                        offset,
                    );
                }
                if crate::tree::item_is_cfg_e2e(item) {
                    push_entity_action(
                        results,
                        "Add ink! e2e test `fn`.",
                        "\n#[ink_e2e::test]\nasync fn it_works(mut client: Client) {\n}\n",
                        offset,
                    );
                }
            }
        },
        ItemKind::Impl => {
            let parent_is_contract = match item.parent {
                Some(pp) => item_has_attr_kind(
                    &file.items[pp],
                    InkAttributeKind::Macro(InkMacroKind::Contract),
                ),
                None => false,
            };
            if !item.is_trait_impl && (crate::tables::item_has_arg_kind(item, InkArgKind::Impl)
                || child_has_attr_kind(file, idx, InkAttributeKind::Arg(InkArgKind::Constructor))
                || child_has_attr_kind(file, idx, InkAttributeKind::Arg(InkArgKind::Message))
                || parent_is_contract) {
                push_entity_action(
                    results,
                    "Add ink! constructor `fn`.",
                    "\n#[ink(constructor)]\npub fn new() -> Self {\n}\n",
                    offset,
                );
                push_entity_action(
                    results,
                    "Add ink! message `fn`.",
                    "\n#[ink(message)]\npub fn message(&self) {\n}\n",
                    offset,
                );
            }
        },
        ItemKind::Trait => {
            let primary_kind = match primary_ink_attr_idx(item) {
                Some(i) => match &item.attrs[i] {
                    Attr::Ink(x) => Some(x.kind),
                    Attr::Other(_) => None,
                },
                None => None,
            };
            match primary_kind {
                Some(InkAttributeKind::Macro(InkMacroKind::ChainExtension)) => {
                    if !has_error_code_child(file, idx) {
                        push_entity_action(
                            results,
                            "Add `ErrorCode` type for ink! chain extension.",
                            "\ntype ErrorCode = ();\n",
                            offset,
                        );
                    }
                    push_entity_action(
                        results,
                        "Add ink! extension `fn`.",
                        "\n#[ink(extension = 1)]\nfn extension();\n",
                        offset,
                    );
                },
                Some(InkAttributeKind::Macro(InkMacroKind::TraitDefinition)) => {
                    push_entity_action(
                        results,
                        "Add ink! message declaration.",
                        "\n#[ink(message)]\nfn message(&self);\n",
                        offset,
                    );
                },
                _ => {},
            }
        },
        ItemKind::Struct => {
            if item_has_attr_kind(item, InkAttributeKind::Arg(InkArgKind::Event)) {
                push_entity_action(
                    results,
                    "Add ink! topic `field`.",
                    "\n#[ink(topic)]\ntopic: u32,\n",
                    offset,
                );
            }
        },
        _ => {},
    }
}

/// The (label, inserted text) pairs of the root-level entity actions: a
/// contract (when the file holds none yet), a trait definition, a chain
/// extension and a storage item, each inserting its bare attribute macro
/// text.
pub open spec fn spec_root_templates(file: InkFile) -> Seq<(Seq<char>, Seq<char>)> {
    (if !spec_file_has_attr_kind(file, InkAttributeKind::Macro(InkMacroKind::Contract)) {
        seq![("Add ink! contract."@, "#[ink::contract]"@)]
    } else {
        Seq::empty()
    }) + seq![
        ("Add ink! trait definition."@, "#[ink::trait_definition]"@),
        ("Add ink! chain extension."@, "#[ink::chain_extension]"@),
        ("Add ink! storage item."@, "#[ink::storage_item]"@),
    ]
}

/// What the root-level entity stage appends.
pub open spec fn spec_root_actions_post(
    pre: Seq<Action>,
    post: Seq<Action>,
    file: InkFile,
    offset: int,
) -> bool {
    let ts = spec_root_templates(file);
    &&& spec_appends(pre, post, ts.len() as int)
    &&& forall|k: int|
        0 <= k < ts.len() ==> spec_is_insert_action(
            #[trigger] post[pre.len() + k],
            ts[k].0,
            ts[k].1,
            offset,
            TextRange { start: offset as usize, end: offset as usize },
        )
}

/// Computes the root-level entity actions at the given offset.
pub fn root_ink_entity_actions(results: &mut Vec<Action>, file: &InkFile, offset: usize)
    ensures
        spec_root_actions_post(old(results)@, final(results)@, *file, offset as int),
{
    if !file_has_attr_kind(file, InkAttributeKind::Macro(InkMacroKind::Contract)) {
        push_entity_action(results, "Add ink! contract.", "#[ink::contract]", offset);
    }
    push_entity_action(results, "Add ink! trait definition.", "#[ink::trait_definition]", offset);
    push_entity_action(results, "Add ink! chain extension.", "#[ink::chain_extension]", offset);
    push_entity_action(results, "Add ink! storage item.", "#[ink::storage_item]", offset);
}

/// Whether the selection range lies in the item's declaration (its header
/// range or its terminating token), for an item with a resolvable
/// header/body split.
pub open spec fn spec_focused_on_decl(item: Item, range: TextRange) -> bool {
    (item.decl_range matches Some(d) && d.spec_contains_range(range)) || (
    item.terminal_range matches Some(t) && t.spec_contains_range(range))
}

/// Determines if the selection range is in the item's declaration (i.e. not
/// on attributes or doc comments, nor inside the item's body).
pub fn is_focused_on_item_declaration(item: &Item, range: TextRange) -> (r: bool)
    ensures
        r == spec_focused_on_decl(*item, range),
{
    let in_decl = match &item.decl_range {
        Some(d) => d.contains_range(range),
        None => false,
    };
    let in_term = match &item.terminal_range {
        Some(t) => t.contains_range(range),
        None => false,
    };
    in_decl || in_term
}

/// Whether the selection range lies strictly between the item's declaration
/// and its terminating token: its body.
pub open spec fn spec_focused_on_body(item: Item, range: TextRange) -> bool {
    item.decl_range matches Some(d) && item.terminal_range matches Some(t) && d.end < t.start && (
    TextRange { start: d.end, end: t.start }).spec_contains_range(range)
}

/// Determines if the selection range is in the item's body (i.e. inside the
/// item's item list or body).
pub fn is_focused_on_item_body(item: &Item, range: TextRange) -> (r: bool)
    ensures
        r == spec_focused_on_body(*item, range),
{
    match (&item.decl_range, &item.terminal_range) {
        (Some(d), Some(t)) => d.end < t.start && (TextRange { start: d.end, end: t.start
        }).contains_range(range),
        _ => false,
    }
}

/// Whether any attribute of any item covers the range.
pub open spec fn spec_range_in_attr(file: InkFile, range: TextRange) -> bool {
    exists|i: int, a: int|
        0 <= i < file.items@.len() && 0 <= a < file.items@[i].attrs@.len() && (
        #[trigger] spec_attr_range(file.items@[i].attrs@[a])).spec_contains_range(range)
}

/// The insertion offset derived from the focused token: the end of the
/// selection range when the token is whitespace covering it, the token's
/// end otherwise.
pub open spec fn spec_focused_insert_offset(file: InkFile, t: int, range: TextRange) -> int {
    if file.tokens@[t].kind == TokenKind::Whitespace && file.tokens@[t].range.spec_contains_range(
        range,
    ) {
        range.end as int
    } else {
        file.tokens@[t].range.end as int
    }
}

/// The chained attribute stages for a focus inside the declaration at `it`:
/// the macro, argument and flatten stages run (from an empty accumulator)
/// when the focus is on the declaration or on a record field, and the
/// entity stage then extends their output when the focus is on the
/// declaration or body.
pub open spec fn spec_action_stage_chain(
    file: InkFile,
    range: TextRange,
    r: Seq<Action>,
    it: int,
    t: int,
    s1: Seq<Action>,
    s2: Seq<Action>,
    s3: Seq<Action>,
) -> bool {
    let item = file.items@[it];
    let field = if item.kind == ItemKind::Struct {
        spec_covering_item(file.items@, range, true)
    } else {
        Option::None
    };
    let target = match field {
        Some(f) => f,
        Option::None => it,
    };
    let target_range = match field {
        Some(f) => file.items@[f].range,
        Option::None => match item.decl_range {
            Some(d) => d,
            Option::None => item.range,
        },
    };
    let decl_focus = spec_focused_on_decl(item, range);
    let body_focus = spec_focused_on_body(item, range);
    &&& (if field is Some || decl_focus {
        &&& spec_macro_actions_post(Seq::empty(), s1, file, target, target_range)
        &&& spec_arg_actions_post(s1, s2, file, target, target_range)
        &&& spec_flatten_post(s2, s3, file.items@[target], target_range)
    } else {
        s3 == Seq::<Action>::empty()
    })
    &&& (if decl_focus || (body_focus && field is None) {
        spec_entity_actions_post(
            s3,
            r,
            file,
            it,
            if body_focus {
                Some(spec_focused_insert_offset(file, t, range) as usize)
            } else {
                Option::None
            },
        )
    } else {
        r == s3
    })
}

/// There are stage outputs that chain into the final result.
pub open spec fn spec_staged_result(
    file: InkFile,
    range: TextRange,
    r: Seq<Action>,
    it: int,
    t: int,
) -> bool {
    exists|s1: Seq<Action>, s2: Seq<Action>, s3: Seq<Action>|
        #[trigger] spec_action_stage_chain(file, range, r, it, t, s1, s2, s3)
}

/// What `actions` returns, by case: nothing when the focus belongs to
/// attribute content or cannot be resolved; the root-level entity actions
/// for an empty file or for a focus in the file root; and, for a focus on a
/// declaration (or a record field of a struct), the attribute macro stage,
/// the attribute argument stage and the flatten stage chained, followed by
/// the entity stage for a focus on the declaration or body.
pub open spec fn spec_actions_result(file: InkFile, range: TextRange, r: Seq<Action>) -> bool {
    match spec_covering_token(file.tokens@, range) {
        Option::None => if file.text_len == 0 && range.start == 0 && range.end == 0 {
            spec_root_actions_post(Seq::empty(), r, file, range.end as int)
        } else {
            r == Seq::<Action>::empty()
        },
        Some(t) => if spec_range_in_attr(file, range) {
            r == Seq::<Action>::empty()
        } else {
            match spec_covering_item(file.items@, range, false) {
                Some(it) => spec_staged_result(file, range, r, it, t),
                Option::None => {
                    if forall|i: int|
                        0 <= i < file.items@.len() ==> !(
                        #[trigger] file.items@[i]).range.spec_contains_range(
                            file.tokens@[t].range,
                        ) {
                        spec_root_actions_post(
                            Seq::empty(),
                            r,
                            file,
                            spec_focused_insert_offset(file, t, range),
                        )
                    } else {
                        r == Seq::<Action>::empty()
                    }
                },
            }
        },
    }
}

/// In the declaration-focus case, the chained stage outputs establish the
/// full result description.
proof fn lemma_actions_result_item_case(
    file: InkFile,
    range: TextRange,
    r: Seq<Action>,
    t: int,
    it: int,
    s1: Seq<Action>,
    s2: Seq<Action>,
    s3: Seq<Action>,
)
    requires
        spec_covering_token(file.tokens@, range) == Some(t),
        !spec_range_in_attr(file, range),
        spec_covering_item(file.items@, range, false) == Some(it),
        spec_action_stage_chain(file, range, r, it, t, s1, s2, s3),
    ensures
        spec_actions_result(file, range, r),
{
    assert(spec_staged_result(file, range, r, it, t)) by {
        assert(spec_action_stage_chain(file, range, r, it, t, s1, s2, s3));
    }
}

/// Computes the item-based ink! attribute and entity actions at the given
/// text range (see `spec_actions_result` for the full case split).
#[verifier::rlimit(50)]
pub fn actions(file: &InkFile, range: TextRange) -> (r: Vec<Action>)
    requires
        file.wf(),
        range.wf(),
    ensures
        spec_actions_result(*file, range, r@),
{
    let mut results: Vec<Action> = Vec::new();
    match file.covering_token(range) {
        Some(t) => {
            // Computes an offset for inserting around the focused element
            // (i.e. at the end of the focused element, except for
            // whitespace, where the supplied range decides).
            let tok = &file.tokens[t];
            let insert_offset: usize = if tok.kind == TokenKind::Whitespace
                && tok.range.contains_range(range) {
                range.end
            } else {
                tok.range.end
            };
            // Only computes actions if the focus isn't inside an attribute.
            let in_attr = match file.covering_attr(range) {
                Some(_) => true,
                None => false,
            };
            if in_attr {
                proof {
                    assert(spec_actions_result(*file, range, results@));
                }
                return results;
            }
            match file.parent_ast_item(range) {
                Some(it) => {
                    let item = &file.items[it];
                    // The covering struct record field (if any).
                    let field = if item.kind == ItemKind::Struct {
                        file.covering_record_field(range)
                    } else {
                        None
                    };
                    let decl_focus = is_focused_on_item_declaration(item, range);
                    let body_focus = is_focused_on_item_body(item, range);
                    let ghost mut s1v: Seq<Action> = Seq::empty();
                    let ghost mut s2v: Seq<Action> = Seq::empty();
                    let ghost mut s3v: Seq<Action> = Seq::empty();
                    if field.is_some() || decl_focus {
                        let target = match field {
                            Some(f) => f,
                            None => it,
                        };
                        let target_range = match field {
                            Some(f) => file.items[f].range,
                            None => match &item.decl_range {
                                Some(d) => *d,
                                None => item.range,
                            },
                        };
                        ink_macro_actions(&mut results, file, target, target_range);
                        proof {
                            s1v = results@;
                        }
                        ink_arg_actions(&mut results, file, target, target_range);
                        proof {
                            s2v = results@;
                        }
                        flatten_attrs(&mut results, &file.items[target], target_range);
                        proof {
                            s3v = results@;
                        }
                    }
                    if decl_focus || (body_focus && field.is_none()) {
                        let offset_opt = if body_focus {
                            Some(insert_offset)
                        } else {
                            None
                        };
                        item_ink_entity_actions(&mut results, file, it, offset_opt);
                    }
                    proof {
                        lemma_actions_result_item_case(
                            *file,
                            range,
                            results@,
                            t as int,
                            it as int,
                            s1v,
                            s2v,
                            s3v,
                        );
                    }
                },
                None => {
                    // Root-level entity actions for a focus with no
                    // enclosing declaration.
                    if file.token_in_file_root(t) {
                        root_ink_entity_actions(&mut results, file, insert_offset);
                    }
                    proof {
                        assert(spec_actions_result(*file, range, results@));
                    }
                },
            }
        },
        None => {
            // Root-level entity actions for an empty file.
            if file.text_len == 0 && range.start == 0 && range.end == 0 {
                root_ink_entity_actions(&mut results, file, range.end);
            }
        },
    }
    proof {
        assert(spec_actions_result(*file, range, results@));
    }
    results
}

} // verus!
