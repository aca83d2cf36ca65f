//! ink! message diagnostics.

use vstd::prelude::*;
use vstd::string::StringExecFns;

use crate::arg::InkArgKind;
use crate::attr::InkAttributeKind;
use crate::diagnostics::{
    ensure_callable_invariants, ensure_fn, ensure_no_ink_descendants, run_generic_diagnostics,
    spec_callable_post, spec_diag_appends, spec_ensure_fn_post, spec_generic_diags_post,
    spec_is_error_with_delete_fix, spec_no_descendants_post,
};
use crate::strutil::str_eq;
use crate::text_edit::{Action, ActionKind, Diagnostic, Severity, TextEdit};
use crate::tree::{Attr, InkFile, Item, ItemKind};
use crate::TextRange;

verus! {

/// An ink! message entity: the position of its annotated item and of its
/// defining `message` attribute.
#[derive(Debug, Clone, Copy)]
pub struct Message {
    pub item: usize,
    pub attr: usize,
}

/// Whether attribute `a` of the item at `idx` is a `message`-kind ink!
/// attribute.
pub open spec fn spec_is_message_attr(file: InkFile, idx: int, a: int) -> bool {
    file.items@[idx].attrs@[a] matches Attr::Ink(x) && x.kind == InkAttributeKind::Arg(
        InkArgKind::Message,
    )
}

impl Message {
    /// Casts the item at `idx` into an ink! message entity: the first
    /// `message`-kind attribute defines it.
    pub fn cast(file: &InkFile, idx: usize) -> (r: Option<Message>)
        requires
            idx < file.items@.len(),
        ensures
            match r {
                Some(m) => m.item == idx && m.attr < file.items@[idx as int].attrs@.len()
                    && spec_is_message_attr(*file, idx as int, m.attr as int) && forall|b: int|
                    0 <= b < m.attr ==> !spec_is_message_attr(*file, idx as int, b),
                None => forall|a: int|
                    0 <= a < file.items@[idx as int].attrs@.len() ==> !spec_is_message_attr(
                        *file,
                        idx as int,
                        a,
                    ),
            },
    {
        let item = &file.items[idx];
        let mut a: usize = 0;
        while a < item.attrs.len()
            invariant
                idx < file.items@.len(),
                *item == file.items@[idx as int],
                0 <= a <= item.attrs@.len(),
                forall|b: int| 0 <= b < a ==> !spec_is_message_attr(*file, idx as int, b),
            decreases item.attrs@.len() - a,
        {
            match &item.attrs[a] {
                Attr::Ink(x) => {
                    if x.kind == InkAttributeKind::Arg(InkArgKind::Message) {
                        return Some(Message { item: idx, attr: a });
                    }
                },
                Attr::Other(_) => {},
            }
            a += 1;
        }
        None
    }
}

/// What the self-receiver check appends: nothing when the function takes
/// `&self` or `&mut self`; otherwise one error whose two quick-fixes insert
/// either receiver form right after the parameter list's opening
/// parenthesis (with a separator when other parameters exist), offered only
/// when that insertion point is known.
pub open spec fn spec_receiver_post(pre: Seq<Diagnostic>, post: Seq<Diagnostic>, item: Item) -> bool {
    match item.fn_data {
        Some(fnd) => if fnd.has_self_ref_receiver {
            post == pre
        } else {
            let range = match item.decl_range {
                Some(d) => d,
                Option::None => item.range,
            };
            let sep: Seq<char> = if fnd.has_params {
                ", "@
            } else {
                ""@
            };
            &&& spec_diag_appends(pre, post, 1)
            &&& {
                let d = post[pre.len() as int];
                &&& d.message@
                    == "ink! message must have a self reference receiver (i.e `&self` or `&mut self`)."@
                &&& d.range == range
                &&& d.severity == Severity::Error
                &&& match fnd.param_insert_offset {
                    Some(o) => d.quickfixes matches Some(fixes) && fixes@.len() == 2 && {
                        let f0 = fixes@[0];
                        let f1 = fixes@[1];
                        &&& f0.label@ == "Add immutable self reference receiver"@
                        &&& f0.kind == ActionKind::QuickFix
                        &&& f0.range == range
                        &&& f0.edits@.len() == 1
                        &&& f0.edits@[0].text@ == "&self"@ + sep
                        &&& f0.edits@[0].range == (TextRange { start: o, end: o })
                        &&& f0.edits@[0].snippet is None
                        &&& f1.label@ == "Add mutable self reference receiver"@
                        &&& f1.kind == ActionKind::QuickFix
                        &&& f1.range == range
                        &&& f1.edits@.len() == 1
                        &&& f1.edits@[0].text@ == "&mut self"@ + sep
                        &&& f1.edits@[0].range == (TextRange { start: o, end: o })
                        &&& f1.edits@[0].snippet is None
                    },
                    Option::None => d.quickfixes is None,
                }
            }
        },
        Option::None => post == pre,
    }
}

/// Ensures that the ink! message function has a self reference receiver
/// (i.e. `&self` or `&mut self`).
pub fn ensure_receiver_is_self_ref(results: &mut Vec<Diagnostic>, item: &Item)
    ensures
        spec_receiver_post(old(results)@, final(results)@, *item),
{
    match &item.fn_data {
        Some(fnd) => {
            if !fnd.has_self_ref_receiver {
                let range = match &item.decl_range {
                    Some(d) => *d,
                    None => item.range,
                };
                let sep: &'static str = if fnd.has_params {
                    ", "
                } else {
                    ""
                };
                let quickfixes = match fnd.param_insert_offset {
                    Some(o) => {
                        let mut fixes: Vec<Action> = Vec::new();
                        let mut edits0: Vec<TextEdit> = Vec::new();
                        edits0.push(
                            TextEdit::insert(crate::strutil::str_concat("&self", sep), o),
                        );
                        fixes.push(
                            Action {
                                label: String::from_str("Add immutable self reference receiver"),
                                kind: ActionKind::QuickFix,
                                range,
                                edits: edits0,
                            },
                        );
                        let mut edits1: Vec<TextEdit> = Vec::new();
                        edits1.push(
                            TextEdit::insert(crate::strutil::str_concat("&mut self", sep), o),
                        );
                        fixes.push(
                            Action {
                                label: String::from_str("Add mutable self reference receiver"),
                                kind: ActionKind::QuickFix,
                                range,
                                edits: edits1,
                            },
                        );
                        Some(fixes)
                    },
                    None => None,
                };
                results.push(
                    Diagnostic {
                        message: String::from_str(
                            "ink! message must have a self reference receiver (i.e `&self` or `&mut self`).",
                        ),
                        range,
                        severity: Severity::Error,
                        quickfixes,
                    },
                );
            }
        },
        None => {},
    }
}

/// What the return-type check appends: one error when the declared return
/// type is textually `Self`, with a quick-fix deleting the whole return
/// type clause.
pub open spec fn spec_return_self_post(
    pre: Seq<Diagnostic>,
    post: Seq<Diagnostic>,
    item: Item,
) -> bool {
    match item.fn_data {
        Some(fnd) => match (fnd.ret_type_text, fnd.ret_type_range, fnd.ret_clause_range) {
            (Some(t), Some(tr), Some(cr)) => if t@ == "Self"@ {
                &&& spec_diag_appends(pre, post, 1)
                &&& spec_is_error_with_delete_fix(
                    post[pre.len() as int],
                    "ink! message must not return `Self`."@,
                    tr,
                    "Remove `Self` return type."@,
                    cr,
                )
            } else {
                post == pre
            },
            _ => post == pre,
        },
        Option::None => post == pre,
    }
}

/// Ensures that the ink! message function does not return `Self`.
pub fn ensure_not_return_self(results: &mut Vec<Diagnostic>, item: &Item)
    ensures
        spec_return_self_post(old(results)@, final(results)@, *item),
{
    match &item.fn_data {
        Some(fnd) => {
            match (&fnd.ret_type_text, &fnd.ret_type_range, &fnd.ret_clause_range) {
                (Some(t), Some(tr), Some(cr)) => {
                    if str_eq(t.as_str(), "Self") {
                        let mut fixes: Vec<Action> = Vec::new();
                        let mut edits: Vec<TextEdit> = Vec::new();
                        edits.push(TextEdit::delete(*cr));
                        fixes.push(
                            Action {
                                label: String::from_str("Remove `Self` return type."),
                                kind: ActionKind::QuickFix,
                                range: *cr,
                                edits,
                            },
                        );
                        results.push(
                            Diagnostic {
                                message: String::from_str("ink! message must not return `Self`."),
                                range: *tr,
                                severity: Severity::Error,
                                quickfixes: Some(fixes),
                            },
                        );
                    }
                },
                _ => {},
            }
        },
        None => {},
    }
}

/// The ink! message checks, chained: generic invariants, the `fn`-shape
/// check, then — for a function item — the callable invariants, the
/// self-receiver check and the return-type check, and finally the
/// no-ink!-descendants check.
pub open spec fn spec_message_chain(
    file: InkFile,
    m: Message,
    pre: Seq<Diagnostic>,
    r: Seq<Diagnostic>,
    s1: Seq<Diagnostic>,
    s2: Seq<Diagnostic>,
    s3: Seq<Diagnostic>,
    s4: Seq<Diagnostic>,
    s5: Seq<Diagnostic>,
) -> bool {
    let item = file.items@[m.item as int];
    let attr = item.attrs@[m.attr as int]->Ink_0;
    &&& spec_generic_diags_post(pre, s1, item)
    &&& spec_ensure_fn_post(
        s1,
        s2,
        item,
        "ink! message must be applied to a `fn` item."@,
        attr.text@,
        attr.range,
    )
    &&& (match (item.kind, item.fn_data) {
        (ItemKind::Function, Some(fnd)) => {
            &&& spec_callable_post(s2, s3, fnd, "message"@)
            &&& spec_receiver_post(s3, s4, item)
            &&& spec_return_self_post(s4, s5, item)
        },
        _ => s5 == s2,
    })
    &&& spec_no_descendants_post(
        s5,
        r,
        file,
        m.item as int,
        "ink! message must not contain descendant ink! attributes."@,
    )
}

/// There are stage outputs that chain into the final diagnostics.
pub open spec fn spec_message_diags(
    file: InkFile,
    m: Message,
    pre: Seq<Diagnostic>,
    r: Seq<Diagnostic>,
) -> bool {
    exists|s1: Seq<Diagnostic>, s2: Seq<Diagnostic>, s3: Seq<Diagnostic>, s4: Seq<Diagnostic>, s5: Seq<Diagnostic>|
        #[trigger] spec_message_chain(file, m, pre, r, s1, s2, s3, s4, s5)
}

/// Runs all ink! message diagnostics: the generic invariants, the
/// `fn`-shape check, the common callable invariants, the self reference
/// receiver rule, the no-`Self`-return rule, and the no-ink!-descendants
/// rule.
pub fn diagnostics(results: &mut Vec<Diagnostic>, file: &InkFile, message: &Message)
    requires
        file.wf(),
        message.item < file.items@.len(),
        message.attr < file.items@[message.item as int].attrs@.len(),
        spec_is_message_attr(*file, message.item as int, message.attr as int),
    ensures
        spec_message_diags(*file, *message, old(results)@, final(results)@),
{
    let ghost pre = results@;
    let item = &file.items[message.item];
    run_generic_diagnostics(results, item);
    let ghost s1v = results@;
    let attr_text_range = match &item.attrs[message.attr] {
        Attr::Ink(x) => (x.text.as_str(), x.range),
        Attr::Other(_) => {
            proof {
                assert(false);
            }
            ("", TextRange { start: 0, end: 0 })
        },
    };
    ensure_fn(
        results,
        item,
        "ink! message must be applied to a `fn` item.",
        attr_text_range.0,
        attr_text_range.1,
    );
    let ghost s2v = results@;
    let ghost mut s3v = results@;
    let ghost mut s4v = results@;
    let ghost mut s5v = results@;
    let run_fn_checks = item.kind == ItemKind::Function && item.fn_data.is_some();
    if run_fn_checks {
        match &item.fn_data {
            Some(fnd) => {
                ensure_callable_invariants(results, fnd, "message");
                proof {
                    s3v = results@;
                }
                ensure_receiver_is_self_ref(results, item);
                proof {
                    s4v = results@;
                }
                ensure_not_return_self(results, item);
                proof {
                    s5v = results@;
                }
            },
            None => {
                proof {
                    assert(false);
                }
            },
        }
    }
    ensure_no_ink_descendants(
        results,
        file,
        message.item,
        "ink! message must not contain descendant ink! attributes.",
    );
    proof {
        assert(spec_message_diags(*file, *message, pre, results@)) by {
            assert(spec_message_chain(*file, *message, pre, results@, s1v, s2v, s3v, s4v, s5v));
        }
    }
}

} // verus!
