//! ink! test diagnostics.

use vstd::prelude::*;

use crate::attr::{InkAttributeKind, InkMacroKind};
use crate::diagnostics::{
    ensure_fn, ensure_no_ink_descendants, run_generic_diagnostics, spec_ensure_fn_post,
    spec_generic_diags_post, spec_no_descendants_post,
};
use crate::text_edit::Diagnostic;
use crate::tree::{Attr, InkFile};
use crate::TextRange;

verus! {

/// An ink! test entity: the position of its annotated item and of its
/// defining `ink::test` attribute.
#[derive(Debug, Clone, Copy)]
pub struct InkTest {
    pub item: usize,
    pub attr: usize,
}

/// Whether attribute `a` of the item at `idx` is an `ink::test` macro
/// attribute.
pub open spec fn spec_is_ink_test_attr(file: InkFile, idx: int, a: int) -> bool {
    file.items@[idx].attrs@[a] matches Attr::Ink(x) && x.kind == InkAttributeKind::Macro(
        InkMacroKind::Test,
    )
}

impl InkTest {
    /// Casts the item at `idx` into an ink! test entity: the first
    /// `ink::test` attribute defines it.
    pub fn cast(file: &InkFile, idx: usize) -> (r: Option<InkTest>)
        requires
            idx < file.items@.len(),
        ensures
            match r {
                Some(m) => m.item == idx && m.attr < file.items@[idx as int].attrs@.len()
                    && spec_is_ink_test_attr(*file, idx as int, m.attr as int) && forall|b: int|
                    0 <= b < m.attr ==> !spec_is_ink_test_attr(*file, idx as int, b),
                None => forall|a: int|
                    0 <= a < file.items@[idx as int].attrs@.len() ==> !spec_is_ink_test_attr(
                        *file,
                        idx as int,
                        a,
                    ),
            },
    {
        let item = &file.items[idx];
        let mut a: usize = 0;
        while a < item.attrs.len()
            invariant
                idx < file.items@.len(),
                *item == file.items@[idx as int],
                0 <= a <= item.attrs@.len(),
                forall|b: int| 0 <= b < a ==> !spec_is_ink_test_attr(*file, idx as int, b),
            decreases item.attrs@.len() - a,
        {
            match &item.attrs[a] {
                Attr::Ink(x) => {
                    if x.kind == InkAttributeKind::Macro(InkMacroKind::Test) {
                        return Some(InkTest { item: idx, attr: a });
                    }
                },
                Attr::Other(_) => {},
            }
            a += 1;
        }
        None
    }
}

/// The ink! test checks, chained: generic invariants, the `fn`-shape check,
/// and the no-ink!-descendants check.
pub open spec fn spec_ink_test_chain(
    file: InkFile,
    m: InkTest,
    pre: Seq<Diagnostic>,
    r: Seq<Diagnostic>,
    s1: Seq<Diagnostic>,
    s2: Seq<Diagnostic>,
) -> bool {
    let item = file.items@[m.item as int];
    let attr = item.attrs@[m.attr as int]->Ink_0;
    &&& spec_generic_diags_post(pre, s1, item)
    &&& spec_ensure_fn_post(
        s1,
        s2,
        item,
        "ink! test must be applied to a `fn` item."@,
        attr.text@,
        attr.range,
    )
    &&& spec_no_descendants_post(
        s2,
        r,
        file,
        m.item as int,
        "ink! test must not contain descendant ink! attributes."@,
    )
}

/// There are stage outputs that chain into the final diagnostics.
pub open spec fn spec_ink_test_diags(
    file: InkFile,
    m: InkTest,
    pre: Seq<Diagnostic>,
    r: Seq<Diagnostic>,
) -> bool {
    exists|s1: Seq<Diagnostic>, s2: Seq<Diagnostic>|
        #[trigger] spec_ink_test_chain(file, m, pre, r, s1, s2)
}

/// Runs all ink! test diagnostics: the generic invariants, the `fn`-shape
/// check, and the no-ink!-descendants rule.
pub fn diagnostics(results: &mut Vec<Diagnostic>, file: &InkFile, ink_test: &InkTest)
    requires
        file.wf(),
        ink_test.item < file.items@.len(),
        ink_test.attr < file.items@[ink_test.item as int].attrs@.len(),
        spec_is_ink_test_attr(*file, ink_test.item as int, ink_test.attr as int),
    ensures
        spec_ink_test_diags(*file, *ink_test, old(results)@, final(results)@),
{
    let ghost pre = results@;
    let item = &file.items[ink_test.item];
    run_generic_diagnostics(results, item);
    let ghost s1v = results@;
    let attr_text_range = match &item.attrs[ink_test.attr] {
        Attr::Ink(x) => (x.text.as_str(), x.range),
        Attr::Other(_) => {
            proof {
                assert(false);
            }
            ("", TextRange { start: 0, end: 0 })
        },
    };
    ensure_fn(
        results,
        item,
        "ink! test must be applied to a `fn` item.",
        attr_text_range.0,
        attr_text_range.1,
    );
    let ghost s2v = results@;
    ensure_no_ink_descendants(
        results,
        file,
        ink_test.item,
        "ink! test must not contain descendant ink! attributes.",
    );
    proof {
        assert(spec_ink_test_diags(*file, *ink_test, pre, results@)) by {
            assert(spec_ink_test_chain(*file, *ink_test, pre, results@, s1v, s2v));
        }
    }
}

} // verus!
