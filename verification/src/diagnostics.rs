//! Diagnostics: generic invariant checks shared by every entity kind, and
//! the per-entity-kind checks layered on top of them.

use vstd::prelude::*;
use vstd::string::StringExecFns;

use crate::arg::{InkArgValueKind};
use crate::strutil::{str_concat3};
use crate::tables::{spec_item_has_ink_attrs};
use crate::text_edit::{Action, ActionKind, Diagnostic, Severity, TextEdit};
use crate::tree::{Attr, FnData, InkFile, Item, ItemKind, VisKind};
use crate::TextRange;

pub mod ink_test;
pub mod message;

verus! {

/// A diagnostic error at `range` carrying exactly one quick-fix that
/// deletes `del`.
pub open spec fn spec_is_error_with_delete_fix(
    d: Diagnostic,
    message: Seq<char>,
    range: TextRange,
    fix_label: Seq<char>,
    del: TextRange,
) -> bool {
    &&& d.message@ == message
    &&& d.range == range
    &&& d.severity == Severity::Error
    &&& d.quickfixes matches Some(fixes) && fixes@.len() == 1 && {
        let f = fixes@[0];
        &&& f.label@ == fix_label
        &&& f.kind == ActionKind::QuickFix
        &&& f.edits@.len() == 1
        &&& f.edits@[0].text@ == Seq::<char>::empty()
        &&& f.edits@[0].range == del
        &&& f.edits@[0].snippet is None
    }
}

/// `post` extends `pre` by exactly the given count of diagnostics.
pub open spec fn spec_diag_appends(pre: Seq<Diagnostic>, post: Seq<Diagnostic>, n: int) -> bool {
    post.len() == pre.len() + n && forall|k: int|
        #![trigger post[k]]
        #![trigger pre[k]]
        0 <= k < pre.len() ==> post[k] == pre[k]
}

/// Appends an error diagnostic with a single deletion quick-fix.
fn push_error_with_delete_fix(
    results: &mut Vec<Diagnostic>,
    message: String,
    range: TextRange,
    fix_label: String,
    del: TextRange,
)
    ensures
        spec_diag_appends(old(results)@, final(results)@, 1),
        spec_is_error_with_delete_fix(
            final(results)@[old(results)@.len() as int],
            message@,
            range,
            fix_label@,
            del,
        ),
{
    let mut fixes: Vec<Action> = Vec::new();
    let mut edits: Vec<TextEdit> = Vec::new();
    edits.push(TextEdit::delete(del));
    fixes.push(Action { label: fix_label, kind: ActionKind::QuickFix, range, edits });
    results.push(
        Diagnostic { message, range, severity: Severity::Error, quickfixes: Some(fixes) },
    );
}

/// The quick-fix label for removing one attribute: ``Remove `<attr>`.``
pub open spec fn spec_remove_attr_label(attr_text: Seq<char>) -> Seq<char> {
    "Remove `"@ + attr_text + "`."@
}

/// What the unknown-attribute check appends: one error per ink! attribute
/// whose classified kind is unknown, each with a quick-fix deleting the
/// attribute.
pub open spec fn spec_unknown_kind_diags(attrs: Seq<Attr>) -> Seq<(Seq<char>, TextRange)>
    decreases attrs.len(),
{
    if attrs.len() == 0 {
        Seq::empty()
    } else {
        spec_unknown_kind_diags(attrs.drop_last()) + (match attrs.last() {
            Attr::Ink(x) => if x.kind == crate::attr::InkAttributeKind::Macro(
                crate::attr::InkMacroKind::Unknown,
            ) || x.kind == crate::attr::InkAttributeKind::Arg(crate::arg::InkArgKind::Unknown) {
                seq![(x.text@, x.range)]
            } else {
                Seq::empty()
            },
            Attr::Other(_) => Seq::empty(),
        })
    }
}

/// What the duplicate-macro check appends: one error per macro-kind ink!
/// attribute after the first, each with a quick-fix deleting the attribute.
pub open spec fn spec_extra_macro_diags(attrs: Seq<Attr>, seen: int) -> Seq<(Seq<char>, TextRange)>
    decreases attrs.len(),
{
    if attrs.len() == 0 {
        Seq::empty()
    } else {
        let rest = spec_extra_macro_diags(attrs.drop_last(), seen);
        let macros_before = spec_count_macros(attrs.drop_last()) + seen;
        match attrs.last() {
            Attr::Ink(x) => if x.kind is Macro && macros_before >= 1 {
                rest + seq![(x.text@, x.range)]
            } else {
                rest
            },
            Attr::Other(_) => rest,
        }
    }
}

/// The number of macro-kind ink! attributes in the list.
pub open spec fn spec_count_macros(attrs: Seq<Attr>) -> int
    decreases attrs.len(),
{
    if attrs.len() == 0 {
        0
    } else {
        spec_count_macros(attrs.drop_last()) + (match attrs.last() {
            Attr::Ink(x) => if x.kind is Macro {
                1int
            } else {
                0int
            },
            Attr::Other(_) => 0int,
        })
    }
}

/// What the argument-value check appends: one error per argument of a known
/// kind whose value does not match the kind's expected value kind, at the
/// argument's range, with no quick-fix.
pub open spec fn spec_bad_value_diags(attrs: Seq<Attr>) -> Seq<TextRange>
    decreases attrs.len(),
{
    if attrs.len() == 0 {
        Seq::empty()
    } else {
        spec_bad_value_diags(attrs.drop_last()) + (match attrs.last() {
            Attr::Ink(x) => spec_bad_value_ranges(x.args@),
            Attr::Other(_) => Seq::empty(),
        })
    }
}

/// The ranges of the arguments in one list whose values do not match their
/// kind's expected value kind (unknown kinds are skipped).
pub open spec fn spec_bad_value_ranges(args: Seq<crate::arg::InkArg>) -> Seq<TextRange>
    decreases args.len(),
{
    if args.len() == 0 {
        Seq::empty()
    } else {
        spec_bad_value_ranges(args.drop_last()) + (
        if args.last().kind != crate::arg::InkArgKind::Unknown && !crate::arg::spec_arg_value_kind(
            args.last().kind,
        ).spec_accepts(args.last().meta.value) {
            seq![args.last().meta.range]
        } else {
            Seq::empty()
        })
    }
}

/// What the generic layer appends for one item: unknown-kind errors, then
/// duplicate-macro errors, then argument-value errors.
pub open spec fn spec_generic_diags_post(
    pre: Seq<Diagnostic>,
    post: Seq<Diagnostic>,
    item: Item,
) -> bool {
    let unknowns = spec_unknown_kind_diags(item.attrs@);
    let extras = spec_extra_macro_diags(item.attrs@, 0);
    let bad_values = spec_bad_value_diags(item.attrs@);
    &&& spec_diag_appends(
        pre,
        post,
        unknowns.len() + extras.len() + bad_values.len() as int,
    )
    &&& forall|k: int|
        0 <= k < unknowns.len() ==> spec_is_error_with_delete_fix(
            #[trigger] post[pre.len() + k],
            "Unknown ink! attribute."@,
            unknowns[k].1,
            spec_remove_attr_label(unknowns[k].0),
            unknowns[k].1,
        )
    &&& forall|k: int|
        0 <= k < extras.len() ==> spec_is_error_with_delete_fix(
            #[trigger] post[pre.len() + unknowns.len() + k],
            "Only one ink! attribute macro is allowed per item."@,
            extras[k].1,
            spec_remove_attr_label(extras[k].0),
            extras[k].1,
        )
    &&& forall|k: int|
        0 <= k < bad_values.len() ==> {
            let d = #[trigger] post[pre.len() + unknowns.len() + extras.len() + k];
            &&& d.message@ == "Invalid ink! attribute argument value."@
            &&& d.range == bad_values[k]
            &&& d.severity == Severity::Error
            &&& d.quickfixes is None
        }
}

/// Runs the generic invariant checks on one item's ink! attributes: no
/// attribute of unknown kind, at most one attribute macro, and each
/// argument's value matching its kind's expected value kind.
pub fn run_generic_diagnostics(results: &mut Vec<Diagnostic>, item: &Item)
    ensures
        spec_generic_diags_post(old(results)@, final(results)@, *item),
{
    let ghost pre = results@;
    let ghost attrs = item.attrs@;
    // Unknown attribute kinds.
    let mut a: usize = 0;
    proof {
        assert(attrs.take(0) =~= Seq::<Attr>::empty());
    }
    while a < item.attrs.len()
        invariant
            0 <= a <= attrs.len(),
            attrs == item.attrs@,
            spec_diag_appends(pre, results@, spec_unknown_kind_diags(attrs.take(a as int)).len() as int),
            forall|k: int|
                0 <= k < spec_unknown_kind_diags(attrs.take(a as int)).len()
                    ==> spec_is_error_with_delete_fix(
                    #[trigger] results@[pre.len() + k],
                    "Unknown ink! attribute."@,
                    spec_unknown_kind_diags(attrs.take(a as int))[k].1,
                    spec_remove_attr_label(spec_unknown_kind_diags(attrs.take(a as int))[k].0),
                    spec_unknown_kind_diags(attrs.take(a as int))[k].1,
                ),
        decreases attrs.len() - a,
    {
        proof {
            assert(attrs.take(a + 1).drop_last() =~= attrs.take(a as int));
            assert(attrs.take(a + 1).last() == attrs[a as int]);
        }
        match &item.attrs[a] {
            Attr::Ink(x) => {
                if x.kind.is_unknown() {
                    let msg = String::from_str("Unknown ink! attribute.");
                    let label = str_concat3("Remove `", x.text.as_str(), "`.");
                    push_error_with_delete_fix(results, msg, x.range, label, x.range);
                }
            },
            Attr::Other(_) => {},
        }
        a += 1;
    }
    proof {
        assert(attrs.take(attrs.len() as int) =~= attrs);
    }

    // At most one attribute macro.
    let ghost pre2 = results@;
    let mut macros_seen: usize = 0;
    let mut a: usize = 0;
    proof {
        assert(attrs.take(0) =~= Seq::<Attr>::empty());
    }
    while a < item.attrs.len()
        invariant
            0 <= a <= attrs.len(),
            attrs == item.attrs@,
            macros_seen as int == spec_count_macros(attrs.take(a as int)),
            macros_seen <= a,
            spec_diag_appends(pre2, results@, spec_extra_macro_diags(attrs.take(a as int), 0).len() as int),
            forall|k: int|
                0 <= k < spec_extra_macro_diags(attrs.take(a as int), 0).len()
                    ==> spec_is_error_with_delete_fix(
                    #[trigger] results@[pre2.len() + k],
                    "Only one ink! attribute macro is allowed per item."@,
                    spec_extra_macro_diags(attrs.take(a as int), 0)[k].1,
                    spec_remove_attr_label(spec_extra_macro_diags(attrs.take(a as int), 0)[k].0),
                    spec_extra_macro_diags(attrs.take(a as int), 0)[k].1,
                ),
        decreases attrs.len() - a,
    {
        proof {
            assert(attrs.take(a + 1).drop_last() =~= attrs.take(a as int));
            assert(attrs.take(a + 1).last() == attrs[a as int]);
        }
        match &item.attrs[a] {
            Attr::Ink(x) => {
                if matches!(x.kind, crate::attr::InkAttributeKind::Macro(_)) {
                    if macros_seen >= 1 {
                        let msg = String::from_str(
                            "Only one ink! attribute macro is allowed per item.",
                        );
                        let label = str_concat3("Remove `", x.text.as_str(), "`.");
                        push_error_with_delete_fix(results, msg, x.range, label, x.range);
                    }
                    macros_seen += 1;
                }
            },
            Attr::Other(_) => {},
        }
        a += 1;
    }
    proof {
        assert(attrs.take(attrs.len() as int) =~= attrs);
    }

    // Argument value kinds.
    let ghost pre3 = results@;
    let mut a: usize = 0;
    proof {
        assert(attrs.take(0) =~= Seq::<Attr>::empty());
    }
    while a < item.attrs.len()
        invariant
            0 <= a <= attrs.len(),
            attrs == item.attrs@,
            spec_diag_appends(pre3, results@, spec_bad_value_diags(attrs.take(a as int)).len() as int),
            forall|k: int|
                0 <= k < spec_bad_value_diags(attrs.take(a as int)).len() ==> {
                    let d = #[trigger] results@[pre3.len() + k];
                    &&& d.message@ == "Invalid ink! attribute argument value."@
                    &&& d.range == spec_bad_value_diags(attrs.take(a as int))[k]
                    &&& d.severity == Severity::Error
                    &&& d.quickfixes is None
                },
        decreases attrs.len() - a,
    {
        proof {
            assert(attrs.take(a + 1).drop_last() =~= attrs.take(a as int));
            assert(attrs.take(a + 1).last() == attrs[a as int]);
        }
        match &item.attrs[a] {
            Attr::Ink(x) => {
                let ghost prex = results@;
                let ghost args = x.args@;
                let mut b: usize = 0;
                proof {
                    assert(args.take(0) =~= Seq::<crate::arg::InkArg>::empty());
                }
                while b < x.args.len()
                    invariant
                        0 <= b <= args.len(),
                        args == x.args@,
                        spec_diag_appends(prex, results@, spec_bad_value_ranges(args.take(b as int)).len() as int),
                        forall|k: int|
                            0 <= k < spec_bad_value_ranges(args.take(b as int)).len() ==> {
                                let d = #[trigger] results@[prex.len() + k];
                                &&& d.message@ == "Invalid ink! attribute argument value."@
                                &&& d.range == spec_bad_value_ranges(args.take(b as int))[k]
                                &&& d.severity == Severity::Error
                                &&& d.quickfixes is None
                            },
                    decreases args.len() - b,
                {
                    proof {
                        assert(args.take(b + 1).drop_last() =~= args.take(b as int));
                        assert(args.take(b + 1).last() == args[b as int]);
                    }
                    let arg = &x.args[b];
                    if arg.kind != crate::arg::InkArgKind::Unknown {
                        let expected = InkArgValueKind::from_arg_kind(arg.kind);
                        if !expected.accepts(&arg.meta.value) {
                            results.push(
                                Diagnostic {
                                    message: String::from_str(
                                        "Invalid ink! attribute argument value.",
                                    ),
                                    range: arg.meta.range,
                                    severity: Severity::Error,
                                    quickfixes: None,
                                },
                            );
                        }
                    }
                    b += 1;
                }
                proof {
                    assert(args.take(args.len() as int) =~= args);
                    assert(spec_bad_value_diags(attrs.take(a + 1)) =~= spec_bad_value_diags(
                        attrs.take(a as int),
                    ) + spec_bad_value_ranges(args));
                    let u0 = spec_bad_value_diags(attrs.take(a as int));
                    let u1 = spec_bad_value_diags(attrs.take(a + 1));
                    let inner = spec_bad_value_ranges(args);
                    assert forall|k: int| 0 <= k < u1.len() implies {
                        let d = #[trigger] results@[pre3.len() + k];
                        &&& d.message@ == "Invalid ink! attribute argument value."@
                        &&& d.range == u1[k]
                        &&& d.severity == Severity::Error
                        &&& d.quickfixes is None
                    } by {
                        if k < u0.len() {
                            assert(u1[k] == u0[k]);
                            assert(results@[pre3.len() + k] == prex[pre3.len() + k]);
                        } else {
                            assert(u1[k] == inner[k - u0.len()]);
                            assert(results@[pre3.len() + k] == results@[prex.len() + (k
                                - u0.len())]);
                        }
                    }
                }
            },
            Attr::Other(_) => {},
        }
        a += 1;
    }
    proof {
        assert(attrs.take(attrs.len() as int) =~= attrs);
    }
}

/// Whether the item at `anc` is a strict ancestor of the item at `j`.
pub open spec fn spec_is_ancestor(items: Seq<Item>, anc: int, j: int) -> bool
    decreases (if 0 <= j < items.len() {
        j + 1
    } else {
        0
    }),
{
    if 0 <= j < items.len() {
        match items[j].parent {
            Some(p) => if 0 <= p < j {
                p == anc || spec_is_ancestor(items, anc, p as int)
            } else {
                false
            },
            Option::None => false,
        }
    } else {
        false
    }
}

/// Decides `spec_is_ancestor`.
pub fn is_ancestor(file: &InkFile, anc: usize, j: usize) -> (r: bool)
    requires
        file.wf(),
        j < file.items@.len(),
    ensures
        r == spec_is_ancestor(file.items@, anc as int, j as int),
{
    let mut cur: usize = j;
    loop
        invariant
            file.wf(),
            cur < file.items@.len(),
            spec_is_ancestor(file.items@, anc as int, j as int) == spec_is_ancestor(
                file.items@,
                anc as int,
                cur as int,
            ),
        decreases cur,
    {
        match file.items[cur].parent {
            Some(p) => {
                proof {
                    assert(crate::tree::spec_item_wf(file.items@[cur as int], cur as int));
                }
                if p == anc {
                    return true;
                }
                cur = p;
            },
            None => {
                return false;
            },
        }
    }
}

/// The descendant ink! attributes of the item at `idx`: for every strict
/// descendant, in pre-order, each ink! attribute's text and range.
pub open spec fn spec_descendant_ink_attrs(file: InkFile, idx: int, upto: int) -> Seq<
    (Seq<char>, TextRange, TextRange),
>
    decreases (if upto >= 0 {
        upto
    } else {
        0
    }),
{
    if upto <= 0 {
        Seq::empty()
    } else {
        spec_descendant_ink_attrs(file, idx, upto - 1) + (
        if spec_is_ancestor(file.items@, idx, upto - 1) {
            spec_item_ink_attr_list(file.items@[upto - 1].attrs@, file.items@[upto - 1].range)
        } else {
            Seq::empty()
        })
    }
}

/// Each ink! attribute's (text, attribute range, item range) for one item.
pub open spec fn spec_item_ink_attr_list(attrs: Seq<Attr>, item_range: TextRange) -> Seq<
    (Seq<char>, TextRange, TextRange),
>
    decreases attrs.len(),
{
    if attrs.len() == 0 {
        Seq::empty()
    } else {
        spec_item_ink_attr_list(attrs.drop_last(), item_range) + (match attrs.last() {
            Attr::Ink(x) => seq![(x.text@, x.range, item_range)],
            Attr::Other(_) => Seq::empty(),
        })
    }
}

/// A "no ink! descendants" diagnostic: an error at the descendant attribute
/// with two quick-fixes, removing the attribute or the whole annotated item.
pub open spec fn spec_is_descendant_diag(
    d: Diagnostic,
    message: Seq<char>,
    attr_text: Seq<char>,
    attr_range: TextRange,
    item_range: TextRange,
) -> bool {
    &&& d.message@ == message
    &&& d.range == attr_range
    &&& d.severity == Severity::Error
    &&& d.quickfixes matches Some(fixes) && fixes@.len() == 2 && {
        let f0 = fixes@[0];
        let f1 = fixes@[1];
        &&& f0.label@ == spec_remove_attr_label(attr_text)
        &&& f0.kind == ActionKind::QuickFix
        &&& f0.edits@.len() == 1
        &&& f0.edits@[0].text@ == Seq::<char>::empty()
        &&& f0.edits@[0].range == attr_range
        &&& f0.edits@[0].snippet is None
        &&& f1.label@ == "Remove item."@
        &&& f1.kind == ActionKind::QuickFix
        &&& f1.edits@.len() == 1
        &&& f1.edits@[0].text@ == Seq::<char>::empty()
        &&& f1.edits@[0].range == item_range
        &&& f1.edits@[0].snippet is None
    }
}

/// What the no-descendants check appends: one error per descendant ink!
/// attribute.
pub open spec fn spec_no_descendants_post(
    pre: Seq<Diagnostic>,
    post: Seq<Diagnostic>,
    file: InkFile,
    idx: int,
    message: Seq<char>,
) -> bool {
    let ds = spec_descendant_ink_attrs(file, idx, file.items@.len() as int);
    &&& spec_diag_appends(pre, post, ds.len() as int)
    &&& forall|k: int|
        0 <= k < ds.len() ==> spec_is_descendant_diag(
            #[trigger] post[pre.len() + k],
            message,
            ds[k].0,
            ds[k].1,
            ds[k].2,
        )
}

/// Ensures that the item at `idx` has no ink! descendants: emits one error
/// per descendant ink! attribute, each with quick-fixes that remove just
/// the attribute or the whole annotated item.
pub fn ensure_no_ink_descendants(
    results: &mut Vec<Diagnostic>,
    file: &InkFile,
    idx: usize,
    message: &'static str,
)
    requires
        file.wf(),
    ensures
        spec_no_descendants_post(old(results)@, final(results)@, *file, idx as int, message@),
{
    let ghost pre = results@;
    let mut j: usize = 0;
    while j < file.items.len()
        invariant
            file.wf(),
            0 <= j <= file.items@.len(),
            spec_diag_appends(
                pre,
                results@,
                spec_descendant_ink_attrs(*file, idx as int, j as int).len() as int,
            ),
            forall|k: int|
                0 <= k < spec_descendant_ink_attrs(*file, idx as int, j as int).len()
                    ==> spec_is_descendant_diag(
                    #[trigger] results@[pre.len() + k],
                    message@,
                    spec_descendant_ink_attrs(*file, idx as int, j as int)[k].0,
                    spec_descendant_ink_attrs(*file, idx as int, j as int)[k].1,
                    spec_descendant_ink_attrs(*file, idx as int, j as int)[k].2,
                ),
        decreases file.items@.len() - j,
    {
        if is_ancestor(file, idx, j) {
            let item = &file.items[j];
            let ghost prej = results@;
            let ghost attrs = item.attrs@;
            let mut a: usize = 0;
            proof {
                assert(attrs.take(0) =~= Seq::<Attr>::empty());
            }
            while a < item.attrs.len()
                invariant
                    j < file.items@.len(),
                    *item == file.items@[j as int],
                    0 <= a <= attrs.len(),
                    attrs == item.attrs@,
                    spec_diag_appends(
                        prej,
                        results@,
                        spec_item_ink_attr_list(attrs.take(a as int), item.range).len() as int,
                    ),
                    forall|k: int|
                        0 <= k < spec_item_ink_attr_list(attrs.take(a as int), item.range).len()
                            ==> spec_is_descendant_diag(
                            #[trigger] results@[prej.len() + k],
                            message@,
                            spec_item_ink_attr_list(attrs.take(a as int), item.range)[k].0,
                            spec_item_ink_attr_list(attrs.take(a as int), item.range)[k].1,
                            spec_item_ink_attr_list(attrs.take(a as int), item.range)[k].2,
                        ),
                decreases attrs.len() - a,
            {
                proof {
                    assert(attrs.take(a + 1).drop_last() =~= attrs.take(a as int));
                    assert(attrs.take(a + 1).last() == attrs[a as int]);
                }
                match &item.attrs[a] {
                    Attr::Ink(x) => {
                        let mut fixes: Vec<Action> = Vec::new();
                        let mut edits0: Vec<TextEdit> = Vec::new();
                        edits0.push(TextEdit::delete(x.range));
                        fixes.push(
                            Action {
                                label: str_concat3("Remove `", x.text.as_str(), "`."),
                                kind: ActionKind::QuickFix,
                                range: x.range,
                                edits: edits0,
                            },
                        );
                        let mut edits1: Vec<TextEdit> = Vec::new();
                        edits1.push(TextEdit::delete(item.range));
                        fixes.push(
                            Action {
                                label: String::from_str("Remove item."),
                                kind: ActionKind::QuickFix,
                                range: item.range,
                                edits: edits1,
                            },
                        );
                        results.push(
                            Diagnostic {
                                message: String::from_str(message),
                                range: x.range,
                                severity: Severity::Error,
                                quickfixes: Some(fixes),
                            },
                        );
                    },
                    Attr::Other(_) => {},
                }
                a += 1;
            }
            proof {
                assert(attrs.take(attrs.len() as int) =~= attrs);
                assert(spec_descendant_ink_attrs(*file, idx as int, j + 1)
                    =~= spec_descendant_ink_attrs(*file, idx as int, j as int)
                    + spec_item_ink_attr_list(attrs, item.range));
                let u0 = spec_descendant_ink_attrs(*file, idx as int, j as int);
                let u1 = spec_descendant_ink_attrs(*file, idx as int, j + 1);
                let inner = spec_item_ink_attr_list(attrs, item.range);
                assert forall|k: int| 0 <= k < u1.len() implies spec_is_descendant_diag(
                    #[trigger] results@[pre.len() + k],
                    message@,
                    u1[k].0,
                    u1[k].1,
                    u1[k].2,
                ) by {
                    if k < u0.len() {
                        assert(u1[k] == u0[k]);
                        assert(results@[pre.len() + k] == prej[pre.len() + k]);
                    } else {
                        assert(u1[k] == inner[k - u0.len()]);
                        assert(results@[pre.len() + k] == results@[prej.len() + (k - u0.len())]);
                    }
                }
            }
        }
        j += 1;
    }
}

/// What the `fn`-shape check appends: nothing for a function item, one
/// error (with a quick-fix removing the defining attribute) otherwise.
pub open spec fn spec_ensure_fn_post(
    pre: Seq<Diagnostic>,
    post: Seq<Diagnostic>,
    item: Item,
    message: Seq<char>,
    attr_text: Seq<char>,
    attr_range: TextRange,
) -> bool {
    if item.kind == ItemKind::Function {
        post == pre
    } else {
        &&& spec_diag_appends(pre, post, 1)
        &&& spec_is_error_with_delete_fix(
            post[pre.len() as int],
            message,
            attr_range,
            spec_remove_attr_label(attr_text),
            attr_range,
        )
    }
}

/// Ensures that the entity annotates a function item; otherwise emits an
/// error with a quick-fix removing the defining attribute.
pub fn ensure_fn(
    results: &mut Vec<Diagnostic>,
    item: &Item,
    message: &'static str,
    attr_text: &str,
    attr_range: TextRange,
)
    ensures
        spec_ensure_fn_post(
            old(results)@,
            final(results)@,
            *item,
            message@,
            attr_text@,
            attr_range,
        ),
{
    if item.kind != ItemKind::Function {
        let label = str_concat3("Remove `", attr_text, "`.");
        push_error_with_delete_fix(results, String::from_str(message), attr_range, label, attr_range);
    }
}

/// What the callable-invariants check appends: a visibility error first
/// (when the visibility is path-qualified), then one error per violation,
/// in check order: generic parameters, `const`, `async`, `unsafe`, an
/// explicit ABI, and variadic parameters; each with its dedicated
/// quick-fix.
pub open spec fn spec_callable_post(
    pre: Seq<Diagnostic>,
    post: Seq<Diagnostic>,
    fnd: FnData,
    scope: Seq<char>,
) -> bool {
    let n_vis: int = if fnd.vis == VisKind::Restricted { 1 } else { 0 };
    let n_gen: int = if fnd.generics_range is Some { 1 } else { 0 };
    let n_const: int = if fnd.const_range is Some { 1 } else { 0 };
    let n_async: int = if fnd.async_range is Some { 1 } else { 0 };
    let n_unsafe: int = if fnd.unsafe_range is Some { 1 } else { 0 };
    let n_abi: int = if fnd.abi_range is Some { 1 } else { 0 };
    let n_var: int = if fnd.variadic_range is Some { 1 } else { 0 };
    &&& spec_diag_appends(
        pre,
        post,
        n_vis + n_gen + n_const + n_async + n_unsafe + n_abi + n_var,
    )
    &&& (fnd.vis == VisKind::Restricted ==> {
        let d = post[pre.len() as int];
        &&& d.message@ == "ink! "@ + scope + " must have `pub` or inherited visibility."@
        &&& d.severity == Severity::Error
        &&& match (fnd.vis_range, fnd.vis_removal_range) {
            (Some(vr), Some(rr)) => {
                &&& d.range == vr
                &&& d.quickfixes matches Some(fixes) && fixes@.len() == 2 && {
                    let f0 = fixes@[0];
                    let f1 = fixes@[1];
                    &&& f0.label@ == "Change visibility to `pub`."@
                    &&& f0.kind == ActionKind::QuickFix
                    &&& f0.edits@.len() == 1
                    &&& f0.edits@[0].text@ == "pub"@
                    &&& f0.edits@[0].range == vr
                    &&& f0.edits@[0].snippet is None
                    &&& f1.label@ == "Remove visibility."@
                    &&& f1.kind == ActionKind::QuickFix
                    &&& f1.edits@.len() == 1
                    &&& f1.edits@[0].text@ == Seq::<char>::empty()
                    &&& f1.edits@[0].range == rr
                    &&& f1.edits@[0].snippet is None
                }
            },
            _ => d.quickfixes is None,
        }
    })
    &&& (fnd.generics_range matches Some(g) ==> spec_is_error_with_delete_fix(
        post[pre.len() + n_vis],
        "ink! "@ + scope + " must not be generic."@,
        g,
        "Remove generic parameters."@,
        g,
    ))
    &&& (fnd.const_range matches Some(g) ==> spec_is_error_with_delete_fix(
        post[pre.len() + n_vis + n_gen],
        "ink! "@ + scope + " must not be `const`."@,
        g,
        "Remove `const` keyword."@,
        g,
    ))
    &&& (fnd.async_range matches Some(g) ==> spec_is_error_with_delete_fix(
        post[pre.len() + n_vis + n_gen + n_const],
        "ink! "@ + scope + " must not be `async`."@,
        g,
        "Remove `async` keyword."@,
        g,
    ))
    &&& (fnd.unsafe_range matches Some(g) ==> spec_is_error_with_delete_fix(
        post[pre.len() + n_vis + n_gen + n_const + n_async],
        "ink! "@ + scope + " must not be `unsafe`."@,
        g,
        "Remove `unsafe` keyword."@,
        g,
    ))
    &&& (fnd.abi_range matches Some(g) ==> spec_is_error_with_delete_fix(
        post[pre.len() + n_vis + n_gen + n_const + n_async + n_unsafe],
        "ink! "@ + scope + " must not have an explicit ABI."@,
        g,
        "Remove explicit ABI."@,
        g,
    ))
    &&& (fnd.variadic_range matches Some(g) ==> spec_is_error_with_delete_fix(
        post[pre.len() + n_vis + n_gen + n_const + n_async + n_unsafe + n_abi],
        "ink! "@ + scope + " must not be variadic."@,
        g,
        "Make un-variadic."@,
        g,
    ))
}

/// Ensures that a function satisfies all common invariants of externally
/// callable ink! entities: `pub` or inherited visibility only, and neither
/// generic, `const`, `async`, `unsafe`, variadic, nor declaring an explicit
/// ABI; each violation is its own error with a dedicated quick-fix.
pub fn ensure_callable_invariants(
    results: &mut Vec<Diagnostic>,
    fnd: &FnData,
    scope: &'static str,
)
    ensures
        spec_callable_post(old(results)@, final(results)@, *fnd, scope@),
{
    if fnd.vis == VisKind::Restricted {
        let message = str_concat3("ink! ", scope, " must have `pub` or inherited visibility.");
        match (&fnd.vis_range, &fnd.vis_removal_range) {
            (Some(vr), Some(rr)) => {
                let mut fixes: Vec<Action> = Vec::new();
                let mut edits0: Vec<TextEdit> = Vec::new();
                edits0.push(TextEdit::replace(String::from_str("pub"), *vr));
                fixes.push(
                    Action {
                        label: String::from_str("Change visibility to `pub`."),
                        kind: ActionKind::QuickFix,
                        range: *vr,
                        edits: edits0,
                    },
                );
                let mut edits1: Vec<TextEdit> = Vec::new();
                edits1.push(TextEdit::delete(*rr));
                fixes.push(
                    Action {
                        label: String::from_str("Remove visibility."),
                        kind: ActionKind::QuickFix,
                        range: *rr,
                        edits: edits1,
                    },
                );
                results.push(
                    Diagnostic {
                        message,
                        range: *vr,
                        severity: Severity::Error,
                        quickfixes: Some(fixes),
                    },
                );
            },
            _ => {
                results.push(
                    Diagnostic {
                        message,
                        range: TextRange { start: 0, end: 0 },
                        severity: Severity::Error,
                        quickfixes: None,
                    },
                );
            },
        }
    }
    match &fnd.generics_range {
        Some(g) => {
            push_error_with_delete_fix(
                results,
                str_concat3("ink! ", scope, " must not be generic."),
                *g,
                String::from_str("Remove generic parameters."),
                *g,
            );
        },
        None => {},
    }
    match &fnd.const_range {
        Some(g) => {
            push_error_with_delete_fix(
                results,
                str_concat3("ink! ", scope, " must not be `const`."),
                *g,
                String::from_str("Remove `const` keyword."),
                *g,
            );
        },
        None => {},
    }
    match &fnd.async_range {
        Some(g) => {
            push_error_with_delete_fix(
                results,
                str_concat3("ink! ", scope, " must not be `async`."),
                *g,
                String::from_str("Remove `async` keyword."),
                *g,
            );
        },
        None => {},
    }
    match &fnd.unsafe_range {
        Some(g) => {
            push_error_with_delete_fix(
                results,
                str_concat3("ink! ", scope, " must not be `unsafe`."),
                *g,
                String::from_str("Remove `unsafe` keyword."),
                *g,
            );
        },
        None => {},
    }
    match &fnd.abi_range {
        Some(g) => {
            push_error_with_delete_fix(
                results,
                str_concat3("ink! ", scope, " must not have an explicit ABI."),
                *g,
                String::from_str("Remove explicit ABI."),
                *g,
            );
        },
        None => {},
    }
    match &fnd.variadic_range {
        Some(g) => {
            push_error_with_delete_fix(
                results,
                str_concat3("ink! ", scope, " must not be variadic."),
                *g,
                String::from_str("Make un-variadic."),
                *g,
            );
        },
        None => {},
    }
}

} // verus!
