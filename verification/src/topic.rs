//! ink! topic entity.

use vstd::prelude::*;

use crate::arg::InkArgKind;
use crate::attr::InkAttributeKind;
use crate::tree::{Attr, InkFile, ItemKind};

verus! {

/// An ink! topic entity: the position of its annotated record field and of
/// its defining `topic` attribute.
#[derive(Debug, Clone, Copy)]
pub struct Topic {
    pub item: usize,
    pub attr: usize,
}

/// Whether attribute `a` of the item at `idx` is a `topic`-kind ink!
/// attribute.
pub open spec fn spec_is_topic_attr(file: InkFile, idx: int, a: int) -> bool {
    file.items@[idx].attrs@[a] matches Attr::Ink(x) && x.kind == InkAttributeKind::Arg(
        InkArgKind::Topic,
    )
}

impl Topic {
    /// Casts the item at `idx` into an ink! topic entity: the first
    /// `topic`-kind attribute defines it.
    pub fn cast(file: &InkFile, idx: usize) -> (r: Option<Topic>)
        requires
            idx < file.items@.len(),
        ensures
            match r {
                Some(m) => m.item == idx && m.attr < file.items@[idx as int].attrs@.len()
                    && spec_is_topic_attr(*file, idx as int, m.attr as int),
                None => forall|a: int|
                    0 <= a < file.items@[idx as int].attrs@.len() ==> !spec_is_topic_attr(
                        *file,
                        idx as int,
                        a,
                    ),
            },
    {
        let item = &file.items[idx];
        let mut a: usize = 0;
        while a < item.attrs.len()
            invariant
                idx < file.items@.len(),
                *item == file.items@[idx as int],
                0 <= a <= item.attrs@.len(),
                forall|b: int| 0 <= b < a ==> !spec_is_topic_attr(*file, idx as int, b),
            decreases item.attrs@.len() - a,
        {
            match &item.attrs[a] {
                Attr::Ink(x) => {
                    if x.kind == InkAttributeKind::Arg(InkArgKind::Topic) {
                        return Some(Topic { item: idx, attr: a });
                    }
                },
                Attr::Other(_) => {},
            }
            a += 1;
        }
        None
    }

    /// Returns the annotated record field's position (if the annotated item
    /// is a record field).
    pub fn field(&self, file: &InkFile) -> (r: Option<usize>)
        requires
            self.item < file.items@.len(),
        ensures
            r matches Some(i) ==> i == self.item && file.items@[i as int].kind
                == ItemKind::RecordField,
            r is None ==> file.items@[self.item as int].kind != ItemKind::RecordField,
    {
        if file.items[self.item].kind == ItemKind::RecordField {
            Some(self.item)
        } else {
            None
        }
    }
}

} // verus!
