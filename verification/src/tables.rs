//! Validity tables and the suggestion filters: which macros/arguments are
//! valid for a node kind, which sibling arguments an attribute kind admits,
//! which scope an argument kind requires, and the duplicate/conflict/scope
//! filtering stages every candidate set runs through before it is surfaced.

use vstd::prelude::*;

use crate::arg::{spec_arg_kind_name, InkArgKind};
use crate::attr::{spec_attr_kind_rank, InkAttributeKind, InkMacroKind};
use crate::tree::{
    spec_in_cfg_scope, spec_scope_of, Attr, InkFile, Item, ItemKind, ScopeKind,
};

verus! {

/// The subsequence of `s` whose elements satisfy `p`, in order.
pub open spec fn spec_retained<T>(s: Seq<T>, p: spec_fn(T) -> bool) -> Seq<T>
    decreases s.len(),
{
    if s.len() == 0 {
        Seq::empty()
    } else {
        spec_retained(s.drop_last(), p) + (if p(s.last()) {
            seq![s.last()]
        } else {
            Seq::empty()
        })
    }
}

/// The attribute macro kinds that are valid for a declaration kind (the
/// `cfg`-gating of test macros is applied by a separate filter).  Within one
/// list, the fixed enumeration order of `InkMacroKind` is kept.
pub open spec fn spec_valid_macros_for(kind: ItemKind) -> Seq<InkMacroKind> {
    match kind {
        ItemKind::Module => seq![InkMacroKind::Contract],
        ItemKind::Trait => seq![InkMacroKind::ChainExtension, InkMacroKind::TraitDefinition],
        ItemKind::Struct | ItemKind::Enum | ItemKind::Union => seq![InkMacroKind::StorageItem],
        ItemKind::Function => seq![InkMacroKind::Test, InkMacroKind::E2ETest],
        _ => Seq::empty(),
    }
}

/// The attribute macro kinds that are valid for a declaration kind.
pub fn valid_ink_macros_by_item_kind(kind: ItemKind) -> (r: Vec<InkMacroKind>)
    ensures
        r@ == spec_valid_macros_for(kind),
{
    let mut v: Vec<InkMacroKind> = Vec::new();
    match kind {
        ItemKind::Module => {
            v.push(InkMacroKind::Contract);
        },
        ItemKind::Trait => {
            v.push(InkMacroKind::ChainExtension);
            v.push(InkMacroKind::TraitDefinition);
        },
        ItemKind::Struct | ItemKind::Enum | ItemKind::Union => {
            v.push(InkMacroKind::StorageItem);
        },
        ItemKind::Function => {
            v.push(InkMacroKind::Test);
            v.push(InkMacroKind::E2ETest);
        },
        _ => {},
    }
    proof {
        assert(v@ =~= spec_valid_macros_for(kind));
    }
    v
}

/// The attribute argument kinds that are valid for a declaration kind when
/// the item carries no classified ink! attribute yet.  Within one list, the
/// fixed enumeration order of `InkArgKind` is kept.
pub open spec fn spec_valid_args_for(kind: ItemKind) -> Seq<InkArgKind> {
    match kind {
        ItemKind::Struct => seq![InkArgKind::Anonymous, InkArgKind::Event, InkArgKind::Storage],
        ItemKind::RecordField => seq![InkArgKind::Topic],
        ItemKind::Function => seq![
            InkArgKind::Constructor,
            InkArgKind::Default,
            InkArgKind::Extension,
            InkArgKind::HandleStatus,
            InkArgKind::Message,
            InkArgKind::Payable,
            InkArgKind::Selector,
        ],
        ItemKind::Impl => seq![InkArgKind::Impl, InkArgKind::Namespace],
        _ => Seq::empty(),
    }
}

/// The attribute argument kinds that are valid for a declaration kind.
pub fn valid_ink_args_by_item_kind(kind: ItemKind) -> (r: Vec<InkArgKind>)
    ensures
        r@ == spec_valid_args_for(kind),
{
    let mut v: Vec<InkArgKind> = Vec::new();
    match kind {
        ItemKind::Struct => {
            v.push(InkArgKind::Anonymous);
            v.push(InkArgKind::Event);
            v.push(InkArgKind::Storage);
        },
        ItemKind::RecordField => {
            v.push(InkArgKind::Topic);
        },
        ItemKind::Function => {
            v.push(InkArgKind::Constructor);
            v.push(InkArgKind::Default);
            v.push(InkArgKind::Extension);
            v.push(InkArgKind::HandleStatus);
            v.push(InkArgKind::Message);
            v.push(InkArgKind::Payable);
            v.push(InkArgKind::Selector);
        },
        ItemKind::Impl => {
            v.push(InkArgKind::Impl);
            v.push(InkArgKind::Namespace);
        },
        _ => {},
    }
    proof {
        assert(v@ =~= spec_valid_args_for(kind));
    }
    v
}

/// The argument kinds that may accompany an attribute of the given primary
/// kind on one item.  Within one list, the fixed enumeration order of
/// `InkArgKind` is kept.
pub open spec fn spec_valid_sibling_args(kind: InkAttributeKind) -> Seq<InkArgKind> {
    match kind {
        InkAttributeKind::Arg(InkArgKind::Event) => seq![InkArgKind::Anonymous],
        InkAttributeKind::Arg(InkArgKind::Constructor) | InkAttributeKind::Arg(
            InkArgKind::Message,
        ) => seq![InkArgKind::Default, InkArgKind::Payable, InkArgKind::Selector],
        InkAttributeKind::Arg(InkArgKind::Extension) => seq![InkArgKind::HandleStatus],
        InkAttributeKind::Arg(InkArgKind::Impl) => seq![InkArgKind::Namespace],
        InkAttributeKind::Macro(InkMacroKind::Contract) => seq![
            InkArgKind::Env,
            InkArgKind::KeepAttr,
        ],
        InkAttributeKind::Macro(InkMacroKind::TraitDefinition) => seq![
            InkArgKind::KeepAttr,
            InkArgKind::Namespace,
        ],
        InkAttributeKind::Macro(InkMacroKind::StorageItem) => seq![InkArgKind::Derive],
        InkAttributeKind::Macro(InkMacroKind::E2ETest) => seq![
            InkArgKind::AdditionalContracts,
            InkArgKind::Environment,
            InkArgKind::KeepAttr,
        ],
        _ => Seq::empty(),
    }
}

/// The argument kinds that may accompany an attribute of the given primary
/// kind on one item.
pub fn valid_sibling_ink_args(kind: InkAttributeKind) -> (r: Vec<InkArgKind>)
    ensures
        r@ == spec_valid_sibling_args(kind),
{
    let mut v: Vec<InkArgKind> = Vec::new();
    match kind {
        InkAttributeKind::Arg(InkArgKind::Event) => {
            v.push(InkArgKind::Anonymous);
        },
        InkAttributeKind::Arg(InkArgKind::Constructor) | InkAttributeKind::Arg(
            InkArgKind::Message,
        ) => {
            v.push(InkArgKind::Default);
            v.push(InkArgKind::Payable);
            v.push(InkArgKind::Selector);
        },
        InkAttributeKind::Arg(InkArgKind::Extension) => {
            v.push(InkArgKind::HandleStatus);
        },
        InkAttributeKind::Arg(InkArgKind::Impl) => {
            v.push(InkArgKind::Namespace);
        },
        InkAttributeKind::Macro(InkMacroKind::Contract) => {
            v.push(InkArgKind::Env);
            v.push(InkArgKind::KeepAttr);
        },
        InkAttributeKind::Macro(InkMacroKind::TraitDefinition) => {
            v.push(InkArgKind::KeepAttr);
            v.push(InkArgKind::Namespace);
        },
        InkAttributeKind::Macro(InkMacroKind::StorageItem) => {
            v.push(InkArgKind::Derive);
        },
        InkAttributeKind::Macro(InkMacroKind::E2ETest) => {
            v.push(InkArgKind::AdditionalContracts);
            v.push(InkArgKind::Environment);
            v.push(InkArgKind::KeepAttr);
        },
        _ => {},
    }
    proof {
        assert(v@ =~= spec_valid_sibling_args(kind));
    }
    v
}

/// Whether an argument kind is valid under the given resolved scope: without
/// any enclosing entity everything passes, but once a scope is detected the
/// argument's scope requirement must match it.
pub open spec fn spec_arg_valid_in_scope(kind: InkArgKind, scope: Option<ScopeKind>) -> bool {
    match scope {
        Option::None => true,
        Option::Some(s) => match kind {
            InkArgKind::Constructor | InkArgKind::Storage | InkArgKind::Event | InkArgKind::Impl
                => s == ScopeKind::Contract,
            InkArgKind::Message | InkArgKind::Default => s == ScopeKind::Contract || s
                == ScopeKind::TraitDefinition,
            InkArgKind::Extension | InkArgKind::HandleStatus => s == ScopeKind::ChainExtension,
            _ => true,
        },
    }
}

/// Decides `spec_arg_valid_in_scope`.
pub fn arg_valid_in_scope(kind: InkArgKind, scope: Option<ScopeKind>) -> (r: bool)
    ensures
        r == spec_arg_valid_in_scope(kind, scope),
{
    match scope {
        Option::None => true,
        Option::Some(s) => match kind {
            InkArgKind::Constructor | InkArgKind::Storage | InkArgKind::Event | InkArgKind::Impl
                => s == ScopeKind::Contract,
            InkArgKind::Message | InkArgKind::Default => s == ScopeKind::Contract || s
                == ScopeKind::TraitDefinition,
            InkArgKind::Extension | InkArgKind::HandleStatus => s == ScopeKind::ChainExtension,
            _ => true,
        },
    }
}

/// Whether a macro kind is valid under the given resolved scope: everything
/// is valid at the file root; inside a contract only test macros and storage
/// items remain valid; inside a chain extension or trait definition no
/// further ink! macro is valid.
pub open spec fn spec_macro_valid_in_scope(kind: InkMacroKind, scope: Option<ScopeKind>) -> bool {
    match scope {
        Option::None => true,
        Option::Some(ScopeKind::Contract) => kind == InkMacroKind::Test || kind
            == InkMacroKind::E2ETest || kind == InkMacroKind::StorageItem,
        Option::Some(_) => false,
    }
}

/// Decides `spec_macro_valid_in_scope`.
pub fn macro_valid_in_scope(kind: InkMacroKind, scope: Option<ScopeKind>) -> (r: bool)
    ensures
        r == spec_macro_valid_in_scope(kind, scope),
{
    match scope {
        Option::None => true,
        Option::Some(ScopeKind::Contract) => kind == InkMacroKind::Test || kind
            == InkMacroKind::E2ETest || kind == InkMacroKind::StorageItem,
        Option::Some(_) => false,
    }
}

/// Whether an item carries at least one ink! attribute.
pub open spec fn spec_item_has_ink_attrs(item: Item) -> bool {
    exists|a: int| 0 <= a < item.attrs@.len() && (#[trigger] item.attrs@[a]) is Ink
}

/// Decides whether an item carries at least one ink! attribute.
pub fn item_has_ink_attrs(item: &Item) -> (r: bool)
    ensures
        r == spec_item_has_ink_attrs(*item),
{
    let mut a: usize = 0;
    while a < item.attrs.len()
        invariant
            0 <= a <= item.attrs@.len(),
            forall|b: int| 0 <= b < a ==> !((#[trigger] item.attrs@[b]) is Ink),
        decreases item.attrs@.len() - a,
    {
        if matches!(&item.attrs[a], Attr::Ink(_)) {
            return true;
        }
        a += 1;
    }
    false
}

/// The priority rank of an attribute (non-ink! attributes rank last).
pub open spec fn spec_attr_rank(a: Attr) -> int {
    match a {
        Attr::Ink(ink_attr) => spec_attr_kind_rank(ink_attr.kind),
        Attr::Other(_) => 1000,
    }
}

/// `i` is the position of the item's "primary" ink! attribute: an ink!
/// attribute of minimal rank, the first occurrence winning among equals.
pub open spec fn spec_is_primary_attr_idx(attrs: Seq<Attr>, i: int) -> bool {
    &&& 0 <= i < attrs.len()
    &&& attrs[i] is Ink
    &&& forall|j: int|
        0 <= j < attrs.len() && (#[trigger] attrs[j]) is Ink ==> spec_attr_rank(attrs[i])
            <= spec_attr_rank(attrs[j])
    &&& forall|j: int|
        0 <= j < i && (#[trigger] attrs[j]) is Ink ==> spec_attr_rank(attrs[i]) < spec_attr_rank(
            attrs[j],
        )
}

/// The kind of the item's primary ink! attribute, if the item has any ink!
/// attribute at all.
pub open spec fn spec_primary_attr_kind(attrs: Seq<Attr>) -> Option<InkAttributeKind> {
    if exists|i: int| spec_is_primary_attr_idx(attrs, i) {
        match attrs[choose|i: int| spec_is_primary_attr_idx(attrs, i)] {
            Attr::Ink(ink_attr) => Some(ink_attr.kind),
            Attr::Other(_) => Option::None,
        }
    } else {
        Option::None
    }
}

/// The primary attribute position is unique.
pub proof fn lemma_primary_attr_idx_unique(attrs: Seq<Attr>, i: int, j: int)
    requires
        spec_is_primary_attr_idx(attrs, i),
        spec_is_primary_attr_idx(attrs, j),
    ensures
        i == j,
{
    if i < j {
        assert(spec_attr_rank(attrs[i]) <= spec_attr_rank(attrs[j]));
        assert(spec_attr_rank(attrs[j]) < spec_attr_rank(attrs[i]));
    } else if j < i {
        assert(spec_attr_rank(attrs[j]) <= spec_attr_rank(attrs[i]));
        assert(spec_attr_rank(attrs[i]) < spec_attr_rank(attrs[j]));
    }
}

/// Finds the item's primary ink! attribute: the first ink! attribute of
/// minimal rank; `None` when the item has no ink! attribute.
pub fn primary_ink_attr_idx(item: &Item) -> (r: Option<usize>)
    ensures
        match r {
            Some(i) => spec_is_primary_attr_idx(item.attrs@, i as int) && Some(
                item.attrs@[i as int]->Ink_0.kind,
            ) == spec_primary_attr_kind(item.attrs@),
            None => !spec_item_has_ink_attrs(*item),
        },
{
    let mut best: Option<usize> = None;
    let mut best_rank: u8 = 0;
    let mut a: usize = 0;
    while a < item.attrs.len()
        invariant
            0 <= a <= item.attrs@.len(),
            match best {
                Some(b) => {
                    &&& b < a
                    &&& item.attrs@[b as int] is Ink
                    &&& best_rank as int == spec_attr_rank(item.attrs@[b as int])
                    &&& forall|j: int|
                        0 <= j < a && (#[trigger] item.attrs@[j]) is Ink ==> (best_rank as int)
                            <= spec_attr_rank(item.attrs@[j])
                    &&& forall|j: int|
                        0 <= j < b && (#[trigger] item.attrs@[j]) is Ink ==> (best_rank as int)
                            < spec_attr_rank(item.attrs@[j])
                },
                None => forall|j: int| 0 <= j < a ==> !((#[trigger] item.attrs@[j]) is Ink),
            },
        decreases item.attrs@.len() - a,
    {
        match &item.attrs[a] {
            Attr::Ink(ink_attr) => {
                let rank = attr_kind_rank(&ink_attr.kind);
                match best {
                    Some(_) => {
                        if rank < best_rank {
                            best = Some(a);
                            best_rank = rank;
                        }
                    },
                    None => {
                        best = Some(a);
                        best_rank = rank;
                    },
                }
            },
            Attr::Other(_) => {},
        }
        a += 1;
    }
    proof {
        match best {
            Some(b) => {
                assert(spec_is_primary_attr_idx(item.attrs@, b as int));
                let c = choose|i: int| spec_is_primary_attr_idx(item.attrs@, i);
                lemma_primary_attr_idx_unique(item.attrs@, b as int, c);
            },
            None => {},
        }
    }
    best
}

/// The executable rank of an attribute kind (macros first, then arguments by
/// their sort order).
fn attr_kind_rank(kind: &InkAttributeKind) -> (r: u8)
    ensures
        r as int == spec_attr_kind_rank(*kind),
{
    match kind {
        InkAttributeKind::Macro(_) => 0,
        InkAttributeKind::Arg(arg_kind) => {
            let o = crate::arg::ink_arg_kind_sort_order(*arg_kind);
            1 + o
        },
    }
}

/// The primary attribute position of an item's attribute list (meaningful
/// only when the item has an ink! attribute, in which case it exists and is
/// unique).
pub open spec fn spec_primary_idx_of(attrs: Seq<Attr>) -> int {
    choose|i: int| spec_is_primary_attr_idx(attrs, i)
}

/// Whether the item carries an ink! attribute classified with exactly the
/// given kind.
pub open spec fn spec_item_has_attr_kind(item: Item, kind: InkAttributeKind) -> bool {
    exists|a: int|
        #![trigger item.attrs@[a]]
        {
            &&& 0 <= a < item.attrs@.len()
            &&& item.attrs@[a] matches Attr::Ink(x) && x.kind == kind
        }
}

/// Decides `spec_item_has_attr_kind`.
pub fn item_has_attr_kind(item: &Item, kind: InkAttributeKind) -> (r: bool)
    ensures
        r == spec_item_has_attr_kind(*item, kind),
{
    let mut a: usize = 0;
    while a < item.attrs.len()
        invariant
            0 <= a <= item.attrs@.len(),
            forall|b: int|
                0 <= b < a ==> !((#[trigger] item.attrs@[b]) matches Attr::Ink(x) && x.kind
                    == kind),
        decreases item.attrs@.len() - a,
    {
        match &item.attrs[a] {
            Attr::Ink(x) => {
                if x.kind == kind {
                    return true;
                }
            },
            Attr::Other(_) => {},
        }
        a += 1;
    }
    false
}

/// Whether some item of the file carries an ink! attribute of the given kind.
pub open spec fn spec_file_has_attr_kind(file: InkFile, kind: InkAttributeKind) -> bool {
    exists|i: int|
        0 <= i < file.items@.len() && spec_item_has_attr_kind(#[trigger] file.items@[i], kind)
}

/// Decides `spec_file_has_attr_kind`.
pub fn file_has_attr_kind(file: &InkFile, kind: InkAttributeKind) -> (r: bool)
    ensures
        r == spec_file_has_attr_kind(*file, kind),
{
    let mut i: usize = 0;
    while i < file.items.len()
        invariant
            0 <= i <= file.items@.len(),
            forall|j: int|
                0 <= j < i ==> !spec_item_has_attr_kind(#[trigger] file.items@[j], kind),
        decreases file.items@.len() - i,
    {
        if item_has_attr_kind(&file.items[i], kind) {
            return true;
        }
        i += 1;
    }
    false
}

/// Whether some direct child of the item at `idx` carries an ink! attribute
/// of the given kind.
pub open spec fn spec_child_has_attr_kind(file: InkFile, idx: int, kind: InkAttributeKind) -> bool {
    exists|j: int|
        #![trigger file.items@[j]]
        {
            &&& 0 <= j < file.items@.len()
            &&& file.items@[j].parent == Some(idx as usize)
            &&& spec_item_has_attr_kind(file.items@[j], kind)
        }
}

/// Decides `spec_child_has_attr_kind`.
pub fn child_has_attr_kind(file: &InkFile, idx: usize, kind: InkAttributeKind) -> (r: bool)
    ensures
        r == spec_child_has_attr_kind(*file, idx as int, kind),
{
    let mut j: usize = 0;
    while j < file.items.len()
        invariant
            0 <= j <= file.items@.len(),
            forall|i: int|
                0 <= i < j ==> !((#[trigger] file.items@[i]).parent == Some(idx)
                    && spec_item_has_attr_kind(file.items@[i], kind)),
        decreases file.items@.len() - j,
    {
        let is_child = match file.items[j].parent {
            Some(p) => p == idx,
            None => false,
        };
        if is_child && item_has_attr_kind(&file.items[j], kind) {
            return true;
        }
        j += 1;
    }
    false
}

/// Whether the item carries an ink! attribute with the given macro kind.
pub open spec fn spec_item_has_macro_kind(item: Item, m: InkMacroKind) -> bool {
    exists|a: int|
        #![trigger item.attrs@[a]]
        {
            &&& 0 <= a < item.attrs@.len()
            &&& item.attrs@[a] matches Attr::Ink(x) && x.kind == InkAttributeKind::Macro(m)
        }
}

/// Decides `spec_item_has_macro_kind`.
pub fn item_has_macro_kind(item: &Item, m: InkMacroKind) -> (r: bool)
    ensures
        r == spec_item_has_macro_kind(*item, m),
{
    let mut a: usize = 0;
    while a < item.attrs.len()
        invariant
            0 <= a <= item.attrs@.len(),
            forall|b: int|
                0 <= b < a ==> !((#[trigger] item.attrs@[b]) matches Attr::Ink(x) && x.kind
                    == InkAttributeKind::Macro(m)),
        decreases item.attrs@.len() - a,
    {
        match &item.attrs[a] {
            Attr::Ink(x) => {
                if x.kind == InkAttributeKind::Macro(m) {
                    return true;
                }
            },
            Attr::Other(_) => {},
        }
        a += 1;
    }
    false
}

/// Whether one attribute carries the argument kind `k`, as its primary kind
/// or anywhere in its argument list.
pub open spec fn spec_attr_has_arg_kind(a: Attr, k: InkArgKind) -> bool {
    a matches Attr::Ink(x) && (x.kind == InkAttributeKind::Arg(k) || exists|b: int|
        0 <= b < x.args@.len() && (#[trigger] x.args@[b]).kind == k)
}

/// Whether the item already carries the argument kind `k` on any of its ink!
/// attributes.
pub open spec fn spec_item_has_arg_kind(item: Item, k: InkArgKind) -> bool {
    exists|a: int|
        0 <= a < item.attrs@.len() && spec_attr_has_arg_kind(#[trigger] item.attrs@[a], k)
}

/// Decides `spec_attr_has_arg_kind`.
fn attr_has_arg_kind(a: &Attr, k: InkArgKind) -> (r: bool)
    ensures
        r == spec_attr_has_arg_kind(*a, k),
{
    match a {
        Attr::Ink(x) => {
            if x.kind == InkAttributeKind::Arg(k) {
                return true;
            }
            let mut b: usize = 0;
            while b < x.args.len()
                invariant
                    *a matches Attr::Ink(xx) && xx == *x,
                    0 <= b <= x.args@.len(),
                    forall|c: int| 0 <= c < b ==> (#[trigger] x.args@[c]).kind != k,
                decreases x.args@.len() - b,
            {
                if x.args[b].kind == k {
                    proof {
                        assert((x.args@[b as int]).kind == k);
                    }
                    return true;
                }
                b += 1;
            }
            false
        },
        Attr::Other(_) => false,
    }
}

/// Decides `spec_item_has_arg_kind`.
pub fn item_has_arg_kind(item: &Item, k: InkArgKind) -> (r: bool)
    ensures
        r == spec_item_has_arg_kind(*item, k),
{
    let mut a: usize = 0;
    while a < item.attrs.len()
        invariant
            0 <= a <= item.attrs@.len(),
            forall|b: int| 0 <= b < a ==> !spec_attr_has_arg_kind(#[trigger] item.attrs@[b], k),
        decreases item.attrs@.len() - a,
    {
        if attr_has_arg_kind(&item.attrs[a], k) {
            return true;
        }
        a += 1;
    }
    false
}

/// Removes macro kinds that are already present on the item.
pub fn remove_duplicate_ink_macro_suggestions(sugg: Vec<InkMacroKind>, item: &Item) -> (r: Vec<
    InkMacroKind,
>)
    ensures
        r@ == spec_retained(sugg@, |m: InkMacroKind| !spec_item_has_macro_kind(*item, m)),
{
    let ghost p = |m: InkMacroKind| !spec_item_has_macro_kind(*item, m);
    let mut out: Vec<InkMacroKind> = Vec::new();
    let mut i: usize = 0;
    while i < sugg.len()
        invariant
            0 <= i <= sugg@.len(),
            out@ == spec_retained(sugg@.take(i as int), p),
            p == (|m: InkMacroKind| !spec_item_has_macro_kind(*item, m)),
        decreases sugg@.len() - i,
    {
        let m = sugg[i];
        if !item_has_macro_kind(item, m) {
            out.push(m);
        }
        proof {
            assert(sugg@.take(i + 1).drop_last() =~= sugg@.take(i as int));
            assert(out@ =~= spec_retained(sugg@.take(i + 1), p));
        }
        i += 1;
    }
    proof {
        assert(sugg@.take(sugg@.len() as int) =~= sugg@);
    }
    out
}

/// Removes macro kinds that are invalid under the item's resolved scope.
pub fn remove_invalid_ink_macro_suggestions_for_parent_ink_scope(
    sugg: Vec<InkMacroKind>,
    file: &InkFile,
    idx: usize,
) -> (r: Vec<InkMacroKind>)
    requires
        file.wf(),
        idx < file.items@.len(),
    ensures
        r@ == spec_retained(
            sugg@,
            |m: InkMacroKind|
                spec_macro_valid_in_scope(m, spec_scope_of(file.items@, idx as int)),
        ),
{
    let scope = file.scope_of(idx);
    let ghost p = |m: InkMacroKind|
        spec_macro_valid_in_scope(m, spec_scope_of(file.items@, idx as int));
    let mut out: Vec<InkMacroKind> = Vec::new();
    let mut i: usize = 0;
    while i < sugg.len()
        invariant
            0 <= i <= sugg@.len(),
            out@ == spec_retained(sugg@.take(i as int), p),
            p == (|m: InkMacroKind|
                spec_macro_valid_in_scope(m, spec_scope_of(file.items@, idx as int))),
            scope == spec_scope_of(file.items@, idx as int),
        decreases sugg@.len() - i,
    {
        let m = sugg[i];
        if macro_valid_in_scope(m, scope) {
            out.push(m);
        }
        proof {
            assert(sugg@.take(i + 1).drop_last() =~= sugg@.take(i as int));
            assert(out@ =~= spec_retained(sugg@.take(i + 1), p));
        }
        i += 1;
    }
    proof {
        assert(sugg@.take(sugg@.len() as int) =~= sugg@);
    }
    out
}

/// Whether a macro kind passes the `cfg`-gating: `test` needs an enclosing
/// `#[cfg(test)]` module, the e2e test macro its e2e-tests shape.
pub open spec fn spec_macro_valid_in_cfg(kind: InkMacroKind, in_test: bool, in_e2e: bool) -> bool {
    match kind {
        InkMacroKind::Test => in_test,
        InkMacroKind::E2ETest => in_e2e,
        _ => true,
    }
}

/// Removes test macro kinds whose `cfg`-gating is not satisfied at the item.
pub fn remove_invalid_ink_macro_suggestions_for_parent_cfg_scope(
    sugg: Vec<InkMacroKind>,
    file: &InkFile,
    idx: usize,
) -> (r: Vec<InkMacroKind>)
    requires
        file.wf(),
        idx < file.items@.len(),
    ensures
        r@ == spec_retained(
            sugg@,
            |m: InkMacroKind|
                spec_macro_valid_in_cfg(
                    m,
                    spec_in_cfg_scope(file.items@, idx as int, false),
                    spec_in_cfg_scope(file.items@, idx as int, true),
                ),
        ),
{
    let in_test = file.in_cfg_scope(idx, false);
    let in_e2e = file.in_cfg_scope(idx, true);
    let ghost p = |m: InkMacroKind|
        spec_macro_valid_in_cfg(
            m,
            spec_in_cfg_scope(file.items@, idx as int, false),
            spec_in_cfg_scope(file.items@, idx as int, true),
        );
    let mut out: Vec<InkMacroKind> = Vec::new();
    let mut i: usize = 0;
    while i < sugg.len()
        invariant
            0 <= i <= sugg@.len(),
            out@ == spec_retained(sugg@.take(i as int), p),
            p == (|m: InkMacroKind|
                spec_macro_valid_in_cfg(
                    m,
                    spec_in_cfg_scope(file.items@, idx as int, false),
                    spec_in_cfg_scope(file.items@, idx as int, true),
                )),
            in_test == spec_in_cfg_scope(file.items@, idx as int, false),
            in_e2e == spec_in_cfg_scope(file.items@, idx as int, true),
        decreases sugg@.len() - i,
    {
        let m = sugg[i];
        let keep = match m {
            InkMacroKind::Test => in_test,
            InkMacroKind::E2ETest => in_e2e,
            _ => true,
        };
        if keep {
            out.push(m);
        }
        proof {
            assert(sugg@.take(i + 1).drop_last() =~= sugg@.take(i as int));
            assert(out@ =~= spec_retained(sugg@.take(i + 1), p));
        }
        i += 1;
    }
    proof {
        assert(sugg@.take(sugg@.len() as int) =~= sugg@);
    }
    out
}

/// Removes argument kinds that are already present on the item.
pub fn remove_duplicate_ink_arg_suggestions(sugg: Vec<InkArgKind>, item: &Item) -> (r: Vec<
    InkArgKind,
>)
    ensures
        r@ == spec_retained(sugg@, |k: InkArgKind| !spec_item_has_arg_kind(*item, k)),
{
    let ghost p = |k: InkArgKind| !spec_item_has_arg_kind(*item, k);
    let mut out: Vec<InkArgKind> = Vec::new();
    let mut i: usize = 0;
    while i < sugg.len()
        invariant
            0 <= i <= sugg@.len(),
            out@ == spec_retained(sugg@.take(i as int), p),
            p == (|k: InkArgKind| !spec_item_has_arg_kind(*item, k)),
        decreases sugg@.len() - i,
    {
        let k = sugg[i];
        if !item_has_arg_kind(item, k) {
            out.push(k);
        }
        proof {
            assert(sugg@.take(i + 1).drop_last() =~= sugg@.take(i as int));
            assert(out@ =~= spec_retained(sugg@.take(i + 1), p));
        }
        i += 1;
    }
    proof {
        assert(sugg@.take(sugg@.len() as int) =~= sugg@);
    }
    out
}

/// Removes argument kinds that conflict with the item's primary attribute:
/// when the item carries a primary ink! attribute of a known kind, only that
/// kind's allowed sibling arguments remain; with no ink! attribute, or only
/// an unknown one, the candidate set is left as it is.
pub fn remove_conflicting_ink_arg_suggestions(sugg: Vec<InkArgKind>, item: &Item) -> (r: Vec<
    InkArgKind,
>)
    ensures
        r@ == (match spec_primary_attr_kind(item.attrs@) {
            Some(kind) => if kind != InkAttributeKind::Macro(InkMacroKind::Unknown) && kind
                != InkAttributeKind::Arg(InkArgKind::Unknown) {
                spec_retained(sugg@, |k: InkArgKind| spec_valid_sibling_args(kind).contains(k))
            } else {
                sugg@
            },
            Option::None => sugg@,
        }),
{
    match primary_ink_attr_idx(item) {
        Some(i) => {
            let kind = match &item.attrs[i] {
                Attr::Ink(x) => x.kind,
                Attr::Other(_) => {
                    proof {
                        assert(false);
                    }
                    InkAttributeKind::Macro(InkMacroKind::Unknown)
                },
            };
            if kind.is_unknown() {
                return sugg;
            }
            let allowed = valid_sibling_ink_args(kind);
            let ghost p = |k: InkArgKind| spec_valid_sibling_args(kind).contains(k);
            let mut out: Vec<InkArgKind> = Vec::new();
            let mut j: usize = 0;
            while j < sugg.len()
                invariant
                    0 <= j <= sugg@.len(),
                    allowed@ == spec_valid_sibling_args(kind),
                    out@ == spec_retained(sugg@.take(j as int), p),
                    p == (|k: InkArgKind| spec_valid_sibling_args(kind).contains(k)),
                decreases sugg@.len() - j,
            {
                let k = sugg[j];
                if vec_contains_arg_kind(&allowed, k) {
                    out.push(k);
                }
                proof {
                    assert(sugg@.take(j + 1).drop_last() =~= sugg@.take(j as int));
                    assert(out@ =~= spec_retained(sugg@.take(j + 1), p));
                }
                j += 1;
            }
            proof {
                assert(sugg@.take(sugg@.len() as int) =~= sugg@);
            }
            out
        },
        None => sugg,
    }
}

/// Whether a vector of argument kinds contains `k`.
pub fn vec_contains_arg_kind(v: &Vec<InkArgKind>, k: InkArgKind) -> (r: bool)
    ensures
        r == v@.contains(k),
{
    let mut i: usize = 0;
    while i < v.len()
        invariant
            0 <= i <= v@.len(),
            forall|j: int| 0 <= j < i ==> v@[j] != k,
        decreases v@.len() - i,
    {
        if v[i] == k {
            return true;
        }
        i += 1;
    }
    false
}

/// Removes argument kinds that are invalid under the item's resolved scope.
pub fn remove_invalid_ink_arg_suggestions_for_parent_ink_scope(
    sugg: Vec<InkArgKind>,
    file: &InkFile,
    idx: usize,
) -> (r: Vec<InkArgKind>)
    requires
        file.wf(),
        idx < file.items@.len(),
    ensures
        r@ == spec_retained(
            sugg@,
            |k: InkArgKind| spec_arg_valid_in_scope(k, spec_scope_of(file.items@, idx as int)),
        ),
{
    let scope = file.scope_of(idx);
    let ghost p = |k: InkArgKind|
        spec_arg_valid_in_scope(k, spec_scope_of(file.items@, idx as int));
    let mut out: Vec<InkArgKind> = Vec::new();
    let mut i: usize = 0;
    while i < sugg.len()
        invariant
            0 <= i <= sugg@.len(),
            out@ == spec_retained(sugg@.take(i as int), p),
            p == (|k: InkArgKind|
                spec_arg_valid_in_scope(k, spec_scope_of(file.items@, idx as int))),
            scope == spec_scope_of(file.items@, idx as int),
        decreases sugg@.len() - i,
    {
        let k = sugg[i];
        if arg_valid_in_scope(k, scope) {
            out.push(k);
        }
        proof {
            assert(sugg@.take(i + 1).drop_last() =~= sugg@.take(i as int));
            assert(out@ =~= spec_retained(sugg@.take(i + 1), p));
        }
        i += 1;
    }
    proof {
        assert(sugg@.take(sugg@.len() as int) =~= sugg@);
    }
    out
}

/// Retains argument kinds whose canonical name starts with `prefix`.
pub fn retain_args_matching_prefix(sugg: Vec<InkArgKind>, prefix: &str) -> (r: Vec<InkArgKind>)
    ensures
        r@ == spec_retained(
            sugg@,
            |k: InkArgKind| prefix@.is_prefix_of(spec_arg_kind_name(k)),
        ),
{
    let ghost p = |k: InkArgKind| prefix@.is_prefix_of(spec_arg_kind_name(k));
    let mut out: Vec<InkArgKind> = Vec::new();
    let mut i: usize = 0;
    while i < sugg.len()
        invariant
            0 <= i <= sugg@.len(),
            out@ == spec_retained(sugg@.take(i as int), p),
            p == (|k: InkArgKind| prefix@.is_prefix_of(spec_arg_kind_name(k))),
        decreases sugg@.len() - i,
    {
        let k = sugg[i];
        if crate::strutil::str_starts_with(k.name_as_str(), prefix) {
            out.push(k);
        }
        proof {
            assert(sugg@.take(i + 1).drop_last() =~= sugg@.take(i as int));
            assert(out@ =~= spec_retained(sugg@.take(i + 1), p));
        }
        i += 1;
    }
    proof {
        assert(sugg@.take(sugg@.len() as int) =~= sugg@);
    }
    out
}

/// Retains macro kinds whose bare name starts with `prefix`.
pub fn retain_macros_matching_prefix(sugg: Vec<InkMacroKind>, prefix: &str) -> (r: Vec<
    InkMacroKind,
>)
    ensures
        r@ == spec_retained(
            sugg@,
            |m: InkMacroKind| prefix@.is_prefix_of(crate::attr::spec_macro_name(m)),
        ),
{
    let ghost p = |m: InkMacroKind| prefix@.is_prefix_of(crate::attr::spec_macro_name(m));
    let mut out: Vec<InkMacroKind> = Vec::new();
    let mut i: usize = 0;
    while i < sugg.len()
        invariant
            0 <= i <= sugg@.len(),
            out@ == spec_retained(sugg@.take(i as int), p),
            p == (|m: InkMacroKind| prefix@.is_prefix_of(crate::attr::spec_macro_name(m))),
        decreases sugg@.len() - i,
    {
        let m = sugg[i];
        if crate::strutil::str_starts_with(m.macro_name(), prefix) {
            out.push(m);
        }
        proof {
            assert(sugg@.take(i + 1).drop_last() =~= sugg@.take(i as int));
            assert(out@ =~= spec_retained(sugg@.take(i + 1), p));
        }
        i += 1;
    }
    proof {
        assert(sugg@.take(sugg@.len() as int) =~= sugg@);
    }
    out
}

/// Retains macro kinds that belong to the given namespace crate name.
pub fn retain_macros_by_crate_name(sugg: Vec<InkMacroKind>, crate_name: &str) -> (r: Vec<
    InkMacroKind,
>)
    ensures
        r@ == spec_retained(
            sugg@,
            |m: InkMacroKind| crate::attr::spec_macro_crate_name(m) == crate_name@,
        ),
{
    let ghost p = |m: InkMacroKind| crate::attr::spec_macro_crate_name(m) == crate_name@;
    let mut out: Vec<InkMacroKind> = Vec::new();
    let mut i: usize = 0;
    while i < sugg.len()
        invariant
            0 <= i <= sugg@.len(),
            out@ == spec_retained(sugg@.take(i as int), p),
            p == (|m: InkMacroKind| crate::attr::spec_macro_crate_name(m) == crate_name@),
        decreases sugg@.len() - i,
    {
        let m = sugg[i];
        if crate::strutil::str_eq(m.crate_name(), crate_name) {
            out.push(m);
        }
        proof {
            assert(sugg@.take(i + 1).drop_last() =~= sugg@.take(i as int));
            assert(out@ =~= spec_retained(sugg@.take(i + 1), p));
        }
        i += 1;
    }
    proof {
        assert(sugg@.take(sugg@.len() as int) =~= sugg@);
    }
    out
}

} // verus!
