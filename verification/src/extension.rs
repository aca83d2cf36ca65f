//! ink! extension entity.

use vstd::prelude::*;

use crate::arg::{InkArg, InkArgKind};
use crate::attr::InkAttributeKind;
use crate::tables::{spec_attr_has_arg_kind, spec_item_has_arg_kind};
use crate::tree::{Attr, InkFile, ItemKind};

verus! {

/// An ink! extension entity: the position of its annotated item and of its
/// defining `extension` attribute.
#[derive(Debug, Clone, Copy)]
pub struct Extension {
    pub item: usize,
    pub attr: usize,
}

/// Whether attribute `a` of the item at `idx` is an `extension`-kind ink!
/// attribute.
pub open spec fn spec_is_extension_attr(file: InkFile, idx: int, a: int) -> bool {
    file.items@[idx].attrs@[a] matches Attr::Ink(x) && x.kind == InkAttributeKind::Arg(
        InkArgKind::Extension,
    )
}

/// Finds the first argument of the given kind among all ink! attributes of
/// the item at `idx`.
pub fn ink_arg_by_kind(file: &InkFile, idx: usize, kind: InkArgKind) -> (r: Option<InkArg>)
    requires
        idx < file.items@.len(),
    ensures
        (r is Some) == spec_item_has_arg_kind2(*file, idx as int, kind),
        r matches Some(arg) ==> arg.kind == kind,
{
    let item = &file.items[idx];
    let mut a: usize = 0;
    while a < item.attrs.len()
        invariant
            idx < file.items@.len(),
            *item == file.items@[idx as int],
            0 <= a <= item.attrs@.len(),
            forall|b: int|
                0 <= b < a ==> !spec_attr_has_arg_kind2(#[trigger] item.attrs@[b], kind),
        decreases item.attrs@.len() - a,
    {
        match &item.attrs[a] {
            Attr::Ink(x) => {
                let mut b: usize = 0;
                while b < x.args.len()
                    invariant
                        idx < file.items@.len(),
                        *item == file.items@[idx as int],
                        a < item.attrs@.len(),
                        item.attrs@[a as int] matches Attr::Ink(xx) && xx == *x,
                        0 <= b <= x.args@.len(),
                        forall|c: int| 0 <= c < b ==> (#[trigger] x.args@[c]).kind != kind,
                    decreases x.args@.len() - b,
                {
                    if x.args[b].kind == kind {
                        proof {
                            assert(x.args@[b as int].kind == kind);
                            assert(spec_attr_has_arg_kind2(item.attrs@[a as int], kind));
                        }
                        return Some(x.args[b].clone());
                    }
                    b += 1;
                }
            },
            Attr::Other(_) => {},
        }
        a += 1;
    }
    None
}

/// Whether one attribute's argument list holds the kind `k`.
pub open spec fn spec_attr_has_arg_kind2(a: Attr, k: InkArgKind) -> bool {
    a matches Attr::Ink(x) && (exists|b: int|
        0 <= b < x.args@.len() && (#[trigger] x.args@[b]).kind == k)
}

/// Whether some ink! attribute of the item at `idx` carries an argument of
/// kind `k` in its argument list.
pub open spec fn spec_item_has_arg_kind2(file: InkFile, idx: int, k: InkArgKind) -> bool {
    exists|a: int|
        0 <= a < file.items@[idx].attrs@.len() && spec_attr_has_arg_kind2(
            #[trigger] file.items@[idx].attrs@[a],
            k,
        )
}

impl Extension {
    /// Casts the item at `idx` into an ink! extension entity: the first
    /// `extension`-kind attribute defines it.
    pub fn cast(file: &InkFile, idx: usize) -> (r: Option<Extension>)
        requires
            idx < file.items@.len(),
        ensures
            match r {
                Some(m) => m.item == idx && m.attr < file.items@[idx as int].attrs@.len()
                    && spec_is_extension_attr(*file, idx as int, m.attr as int),
                None => forall|a: int|
                    0 <= a < file.items@[idx as int].attrs@.len() ==> !spec_is_extension_attr(
                        *file,
                        idx as int,
                        a,
                    ),
            },
    {
        let item = &file.items[idx];
        let mut a: usize = 0;
        while a < item.attrs.len()
            invariant
                idx < file.items@.len(),
                *item == file.items@[idx as int],
                0 <= a <= item.attrs@.len(),
                forall|b: int| 0 <= b < a ==> !spec_is_extension_attr(*file, idx as int, b),
            decreases item.attrs@.len() - a,
        {
            match &item.attrs[a] {
                Attr::Ink(x) => {
                    if x.kind == InkAttributeKind::Arg(InkArgKind::Extension) {
                        return Some(Extension { item: idx, attr: a });
                    }
                },
                Attr::Other(_) => {},
            }
            a += 1;
        }
        None
    }

    /// Returns the annotated function item's position (if the annotated
    /// item is a function).
    pub fn fn_item(&self, file: &InkFile) -> (r: Option<usize>)
        requires
            self.item < file.items@.len(),
        ensures
            r matches Some(i) ==> i == self.item && file.items@[i as int].kind
                == ItemKind::Function,
            r is None ==> file.items@[self.item as int].kind != ItemKind::Function,
    {
        if file.items[self.item].kind == ItemKind::Function {
            Some(self.item)
        } else {
            None
        }
    }

    /// Returns the ink! `extension` argument (if any) for the ink!
    /// extension.
    pub fn extension_arg(&self, file: &InkFile) -> (r: Option<InkArg>)
        requires
            self.item < file.items@.len(),
        ensures
            (r is Some) == spec_item_has_arg_kind2(*file, self.item as int, InkArgKind::Extension),
            r matches Some(arg) ==> arg.kind == InkArgKind::Extension,
    {
        ink_arg_by_kind(file, self.item, InkArgKind::Extension)
    }

    /// Returns the ink! `handle_status` argument (if any) for the ink!
    /// extension.
    pub fn handle_status_arg(&self, file: &InkFile) -> (r: Option<InkArg>)
        requires
            self.item < file.items@.len(),
        ensures
            (r is Some) == spec_item_has_arg_kind2(
                *file,
                self.item as int,
                InkArgKind::HandleStatus,
            ),
            r matches Some(arg) ==> arg.kind == InkArgKind::HandleStatus,
    {
        ink_arg_by_kind(file, self.item, InkArgKind::HandleStatus)
    }
}

} // verus!
