//! ink! attribute model and classifier: macro kinds, attribute kinds, and the
//! cast from a raw annotation node into a typed `InkAttribute`.

use vstd::prelude::*;

use crate::arg::{spec_ink_arg_kind_sort_order, InkArg, InkArgKind};
use crate::meta::{MetaName, MetaNameValue, MetaOption};
use crate::strutil::str_eq;
use crate::TextRange;

verus! {

/// The ink! attribute macro kind.
#[derive(Debug, Clone, Copy, PartialEq, Eq, Hash, Structural)]
pub enum InkMacroKind {
    /// `#[ink::chain_extension]`
    ChainExtension,
    /// `#[ink::contract]`
    Contract,
    /// `#[ink::storage_item]`
    StorageItem,
    /// `#[ink::test]`
    Test,
    /// `#[ink::trait_definition]`
    TraitDefinition,
    /// `#[ink_e2e::test]`
    E2ETest,
    /// Unknown ink! attribute macro.
    Unknown,
}

/// The macro kind selected by the pair of a namespace path segment and a macro
/// path segment; unmapped pairs yield `Unknown`.
pub open spec fn spec_macro_kind_from_path(crate_seg: Seq<char>, macro_seg: Seq<char>) -> InkMacroKind {
    if crate_seg == "ink"@ {
        if macro_seg == "chain_extension"@ {
            InkMacroKind::ChainExtension
        } else if macro_seg == "contract"@ {
            InkMacroKind::Contract
        } else if macro_seg == "storage_item"@ {
            InkMacroKind::StorageItem
        } else if macro_seg == "test"@ {
            InkMacroKind::Test
        } else if macro_seg == "trait_definition"@ {
            InkMacroKind::TraitDefinition
        } else {
            InkMacroKind::Unknown
        }
    } else if crate_seg == "ink_e2e"@ && macro_seg == "test"@ {
        InkMacroKind::E2ETest
    } else {
        InkMacroKind::Unknown
    }
}

impl InkMacroKind {
    /// Converts the two leading path segments of an ink! attribute macro into
    /// an ink! attribute macro kind.
    pub fn from_path(crate_seg: &str, macro_seg: &str) -> (r: InkMacroKind)
        ensures
            r == spec_macro_kind_from_path(crate_seg@, macro_seg@),
    {
        if str_eq(crate_seg, "ink") {
            if str_eq(macro_seg, "chain_extension") {
                InkMacroKind::ChainExtension
            } else if str_eq(macro_seg, "contract") {
                InkMacroKind::Contract
            } else if str_eq(macro_seg, "storage_item") {
                InkMacroKind::StorageItem
            } else if str_eq(macro_seg, "test") {
                InkMacroKind::Test
            } else if str_eq(macro_seg, "trait_definition") {
                InkMacroKind::TraitDefinition
            } else {
                InkMacroKind::Unknown
            }
        } else if str_eq(crate_seg, "ink_e2e") && str_eq(macro_seg, "test") {
            InkMacroKind::E2ETest
        } else {
            InkMacroKind::Unknown
        }
    }

    /// Returns the full path of the ink! attribute macro as a string slice
    /// (e.g. `ink::contract` for `#[ink::contract]`).
    pub fn path_as_str(&self) -> (r: &'static str)
        ensures
            r@ == spec_macro_path(*self),
    {
        match self {
            InkMacroKind::ChainExtension => "ink::chain_extension",
            InkMacroKind::Contract => "ink::contract",
            InkMacroKind::StorageItem => "ink::storage_item",
            InkMacroKind::Test => "ink::test",
            InkMacroKind::TraitDefinition => "ink::trait_definition",
            InkMacroKind::E2ETest => "ink_e2e::test",
            InkMacroKind::Unknown => "",
        }
    }

    /// Returns the name of the ink! attribute macro as a string slice
    /// (e.g. `contract` for `#[ink::contract]`).
    pub fn macro_name(&self) -> (r: &'static str)
        ensures
            r@ == spec_macro_name(*self),
    {
        match self {
            InkMacroKind::ChainExtension => "chain_extension",
            InkMacroKind::Contract => "contract",
            InkMacroKind::StorageItem => "storage_item",
            InkMacroKind::Test => "test",
            InkMacroKind::TraitDefinition => "trait_definition",
            InkMacroKind::E2ETest => "test",
            InkMacroKind::Unknown => "",
        }
    }

    /// Returns the name of the source crate of the ink! attribute macro as a
    /// string slice (e.g. `ink` for `#[ink::contract]` or `ink_e2e` for
    /// `#[ink_e2e::test]`).
    pub fn crate_name(&self) -> (r: &'static str)
        ensures
            r@ == spec_macro_crate_name(*self),
    {
        match self {
            InkMacroKind::ChainExtension
            | InkMacroKind::Contract
            | InkMacroKind::StorageItem
            | InkMacroKind::Test
            | InkMacroKind::TraitDefinition => "ink",
            InkMacroKind::E2ETest => "ink_e2e",
            InkMacroKind::Unknown => "",
        }
    }

    /// Returns a human readable name of the ink! attribute macro kind
    /// (e.g. for action and completion labels).
    pub fn display_name(&self) -> (r: &'static str)
        ensures
            r@ == spec_macro_display_name(*self),
    {
        match self {
            InkMacroKind::ChainExtension => "chain_extension",
            InkMacroKind::Contract => "contract",
            InkMacroKind::StorageItem => "storage_item",
            InkMacroKind::Test => "test",
            InkMacroKind::TraitDefinition => "trait_definition",
            InkMacroKind::E2ETest => "e2e test",
            InkMacroKind::Unknown => "unknown",
        }
    }
}

/// The canonical dotted path of a macro kind (empty for unknown kinds).
pub open spec fn spec_macro_path(kind: InkMacroKind) -> Seq<char> {
    match kind {
        InkMacroKind::ChainExtension => "ink::chain_extension"@,
        InkMacroKind::Contract => "ink::contract"@,
        InkMacroKind::StorageItem => "ink::storage_item"@,
        InkMacroKind::Test => "ink::test"@,
        InkMacroKind::TraitDefinition => "ink::trait_definition"@,
        InkMacroKind::E2ETest => "ink_e2e::test"@,
        InkMacroKind::Unknown => ""@,
    }
}

/// The bare name of a macro kind (empty for unknown kinds).
pub open spec fn spec_macro_name(kind: InkMacroKind) -> Seq<char> {
    match kind {
        InkMacroKind::ChainExtension => "chain_extension"@,
        InkMacroKind::Contract => "contract"@,
        InkMacroKind::StorageItem => "storage_item"@,
        InkMacroKind::Test => "test"@,
        InkMacroKind::TraitDefinition => "trait_definition"@,
        InkMacroKind::E2ETest => "test"@,
        InkMacroKind::Unknown => ""@,
    }
}

/// The owning namespace of a macro kind (empty for unknown kinds).
pub open spec fn spec_macro_crate_name(kind: InkMacroKind) -> Seq<char> {
    match kind {
        InkMacroKind::E2ETest => "ink_e2e"@,
        InkMacroKind::Unknown => ""@,
        _ => "ink"@,
    }
}

/// A human readable name of a macro kind.
pub open spec fn spec_macro_display_name(kind: InkMacroKind) -> Seq<char> {
    match kind {
        InkMacroKind::ChainExtension => "chain_extension"@,
        InkMacroKind::Contract => "contract"@,
        InkMacroKind::StorageItem => "storage_item"@,
        InkMacroKind::Test => "test"@,
        InkMacroKind::TraitDefinition => "trait_definition"@,
        InkMacroKind::E2ETest => "e2e test"@,
        InkMacroKind::Unknown => "unknown"@,
    }
}

/// The ink! attribute kind: attribute macro (e.g. `#[ink::contract]`) or
/// attribute argument (e.g. `#[ink(storage)]`).
#[derive(Debug, Clone, Copy, PartialEq, Eq, Hash, Structural)]
pub enum InkAttributeKind {
    /// ink! attribute macros, e.g. `#[ink::contract]`.
    Macro(InkMacroKind),
    /// ink! attribute arguments, e.g. `#[ink(storage)]`.
    Arg(InkArgKind),
}

/// Ascending priority rank over attribute kinds: every macro kind ranks below
/// (i.e. has a higher priority than) every argument kind; among argument
/// kinds the rank is the argument kind's own sort order.
pub open spec fn spec_attr_kind_rank(kind: InkAttributeKind) -> int {
    match kind {
        InkAttributeKind::Macro(_) => 0,
        InkAttributeKind::Arg(arg_kind) => 1 + spec_ink_arg_kind_sort_order(arg_kind),
    }
}

impl InkAttributeKind {
    /// Returns true if an ink! attribute's "primary" kind is unknown
    /// (i.e. either an unknown macro, e.g. `#[ink::xyz]`, or an unknown
    /// argument, e.g. `#[ink(xyz)]`).
    pub fn is_unknown(&self) -> (r: bool)
        ensures
            r == (*self == InkAttributeKind::Macro(InkMacroKind::Unknown) || *self
                == InkAttributeKind::Arg(InkArgKind::Unknown)),
    {
        matches!(
            self,
            InkAttributeKind::Macro(InkMacroKind::Unknown)
            | InkAttributeKind::Arg(InkArgKind::Unknown)
        )
    }
}

/// A raw annotation node, as handed over by the tree adapter: the attribute's
/// path segments, its parsed `name [= value]` argument entries (in source
/// order), whether a parenthesized token tree is present, and the attribute's
/// source text and range.
#[derive(Debug)]
pub struct RawAttr {
    pub path_segments: Vec<MetaName>,
    pub args: Vec<MetaNameValue>,
    pub has_token_tree: bool,
    pub text: String,
    pub range: TextRange,
}

/// The ink! arguments derived from a raw attribute's parsed meta items.
pub open spec fn spec_args_of(metas: Seq<MetaNameValue>) -> Seq<InkArg> {
    metas.map_values(|m: MetaNameValue| InkArg { kind: crate::arg::spec_kind_of_meta(m), meta: m })
}

/// The argument kinds derived from a raw attribute's parsed meta items.
pub open spec fn spec_arg_kinds_of(metas: Seq<MetaNameValue>) -> Seq<InkArgKind> {
    metas.map_values(|m: MetaNameValue| crate::arg::spec_kind_of_meta(m))
}

///`i` is the position of the "primary" argument: no argument has a strictly
/// lower rank, and every earlier argument has a strictly higher rank (the
/// first occurrence wins among arguments of equal rank).
pub open spec fn is_primary_index(ks: Seq<InkArgKind>, i: int) -> bool {
    &&& 0 <= i < ks.len()
    &&& forall|j: int|
        0 <= j < ks.len() ==> spec_ink_arg_kind_sort_order(ks[i]) <= spec_ink_arg_kind_sort_order(
            #[trigger] ks[j],
        )
    &&& forall|j: int|
        0 <= j < i ==> spec_ink_arg_kind_sort_order(ks[i]) < spec_ink_arg_kind_sort_order(
            #[trigger] ks[j],
        )
}

/// The primary position of a non-empty argument kind list is unique.
pub proof fn lemma_primary_index_unique(ks: Seq<InkArgKind>, i: int, j: int)
    requires
        is_primary_index(ks, i),
        is_primary_index(ks, j),
    ensures
        i == j,
{
    if i < j {
        assert(spec_ink_arg_kind_sort_order(ks[i]) <= spec_ink_arg_kind_sort_order(ks[j]));
        assert(spec_ink_arg_kind_sort_order(ks[j]) < spec_ink_arg_kind_sort_order(ks[i]));
    } else if j < i {
        assert(spec_ink_arg_kind_sort_order(ks[j]) <= spec_ink_arg_kind_sort_order(ks[i]));
        assert(spec_ink_arg_kind_sort_order(ks[i]) < spec_ink_arg_kind_sort_order(ks[j]));
    }
}

/// Law: an entity-defining argument determines the attribute's primary kind
/// regardless of its position among the arguments.  If an entity-defining
/// kind (sort order 0, e.g. `message`) occurs in the list and every other
/// element is of some other, lower-priority rank, then the primary position
/// always holds that entity-defining kind — whether it comes first, last or
/// in the middle.
pub proof fn lemma_entity_arg_wins(ks: Seq<InkArgKind>, k: InkArgKind, i0: int)
    requires
        spec_ink_arg_kind_sort_order(k) == 0,
        0 <= i0 < ks.len(),
        ks[i0] == k,
        forall|j: int|
            0 <= j < ks.len() ==> ks[j] == k || spec_ink_arg_kind_sort_order(#[trigger] ks[j]) >= 1,
    ensures
        forall|i: int| is_primary_index(ks, i) ==> ks[i] == k,
{
    assert forall|i: int| is_primary_index(ks, i) implies ks[i] == k by {
        assert(spec_ink_arg_kind_sort_order(ks[i]) <= spec_ink_arg_kind_sort_order(ks[i0]));
    }
}

/// Whether a raw attribute is an ink! attribute: its path must have at least
/// one segment and the first segment must be a reserved namespace name.
pub open spec fn spec_is_ink_attr(raw: RawAttr) -> bool {
    raw.path_segments@.len() > 0 && (raw.path_segments@[0].text@ == "ink"@
        || raw.path_segments@[0].text@ == "ink_e2e"@)
}

/// The primary position of an argument kind list (meaningful only when the
/// list is non-empty, in which case it exists and is unique).
pub open spec fn spec_primary_index_of(ks: Seq<InkArgKind>) -> int {
    choose|i: int| is_primary_index(ks, i)
}

/// The attribute kind that classification assigns to an ink! attribute.
pub open spec fn spec_ink_attr_kind(raw: RawAttr) -> InkAttributeKind {
    if raw.path_segments@.len() > 2 {
        InkAttributeKind::Macro(InkMacroKind::Unknown)
    } else if raw.path_segments@.len() == 2 {
        InkAttributeKind::Macro(
            spec_macro_kind_from_path(raw.path_segments@[0].text@, raw.path_segments@[1].text@),
        )
    } else if raw.args@.len() == 0 {
        if raw.has_token_tree {
            InkAttributeKind::Arg(InkArgKind::Unknown)
        } else {
            InkAttributeKind::Macro(InkMacroKind::Unknown)
        }
    } else {
        InkAttributeKind::Arg(
            spec_arg_kinds_of(raw.args@)[spec_primary_index_of(spec_arg_kinds_of(raw.args@))],
        )
    }
}

/// An ink! specific attribute: the classified kind, the typed argument list
/// in source order, and the source data it was derived from.
#[derive(Debug)]
pub struct InkAttribute {
    /// The kind of the ink! attribute, e.g. an attribute macro like
    /// `#[ink::contract]` or an attribute argument like `#[ink(storage)]`.
    pub kind: InkAttributeKind,
    /// ink! attribute arguments, e.g. `message`, `payable`, `selector = 1`
    /// for `#[ink(message, payable, selector = 1)]`.
    pub args: Vec<InkArg>,
    /// The source text of the whole attribute.
    pub text: String,
    /// The source range of the whole attribute.
    pub range: TextRange,
    /// Whether the attribute carries a parenthesized token tree.
    pub has_token_tree: bool,
    /// The ink! namespace path segment (`ink` or `ink_e2e`).
    pub ink: MetaName,
    /// The ink! macro path segment (if any) from which the attribute macro
    /// kind was derived.
    pub ink_macro: Option<MetaName>,
    /// The position of the "primary" argument (if any) from which the
    /// attribute argument kind was derived.
    pub primary_arg: Option<usize>,
}

impl InkAttribute {
    /// Returns the ink! attribute kind.
    ///
    /// Differentiates ink! attribute macros (e.g. `#[ink::contract]`)
    /// from ink! attribute arguments (e.g. `#[ink(storage)]`).
    pub fn kind(&self) -> (r: &InkAttributeKind)
        ensures
            r == &self.kind,
    {
        &self.kind
    }

    /// Returns the ink! attribute arguments.
    pub fn args(&self) -> (r: &Vec<InkArg>)
        ensures
            r == &self.args,
    {
        &self.args
    }

    /// Returns the ink! namespace path segment.
    pub fn ink(&self) -> (r: &MetaName)
        ensures
            r == &self.ink,
    {
        &self.ink
    }

    /// Returns the ink! macro path segment (if any) from which the attribute
    /// macro kind was derived.
    pub fn ink_macro(&self) -> (r: Option<&MetaName>)
        ensures
            match self.ink_macro {
                Some(ref m) => r == Some(m),
                None => r is None,
            },
    {
        self.ink_macro.as_ref()
    }

    /// Returns the ink! argument name (if any) from which the attribute
    /// argument kind was derived.
    pub fn ink_arg_name(&self) -> (r: Option<&MetaName>)
        ensures
            match self.primary_arg {
                Some(i) => (if i < self.args@.len() {
                    match self.args@[i as int].meta.name {
                        MetaOption::Present(n) => r matches Some(m) && *m == n,
                        _ => r is None,
                    }
                } else {
                    r is None
                }),
                None => r is None,
            },
    {
        match self.primary_arg {
            Some(i) => if i < self.args.len() {
                self.args[i].name()
            } else {
                None
            },
            None => None,
        }
    }

    /// Converts a raw annotation node into an `InkAttribute`, if the
    /// attribute's path starts with a reserved ink! namespace name.
    ///
    /// The returned attribute carries all parsed arguments in source order.
    /// Its kind is classified as follows: a second path segment makes the
    /// attribute a macro attribute (a third segment, or an unmapped pair,
    /// makes the macro kind `Unknown`); with a single path segment the
    /// attribute is an argument attribute whose kind is the highest-priority
    /// (lowest-rank, first occurrence wins) argument kind, except that a bare
    /// attribute without any arguments classifies as `Macro(Unknown)` when no
    /// token tree is present and as `Arg(Unknown)` when one is.
    pub fn cast(raw: RawAttr) -> (r: Option<InkAttribute>)
        ensures
            (r is Some) <==> (raw.path_segments@.len() > 0 && (raw.path_segments@[0].text@
                == "ink"@ || raw.path_segments@[0].text@ == "ink_e2e"@)),
            r matches Some(attr) ==> {
                &&& attr.kind == spec_ink_attr_kind(raw)
                &&& attr.args@ == spec_args_of(raw.args@)
                &&& attr.text@ == raw.text@
                &&& attr.range == raw.range
                &&& attr.has_token_tree == raw.has_token_tree
                &&& attr.ink == raw.path_segments@[0]
                &&& raw.path_segments@.len() > 2 ==> attr.kind == InkAttributeKind::Macro(
                    InkMacroKind::Unknown,
                )
                &&& raw.path_segments@.len() == 2 ==> {
                    &&& attr.kind == InkAttributeKind::Macro(
                        spec_macro_kind_from_path(
                            raw.path_segments@[0].text@,
                            raw.path_segments@[1].text@,
                        ),
                    )
                    &&& attr.ink_macro matches Some(m) && m == raw.path_segments@[1]
                }
                &&& (raw.path_segments@.len() == 1 && raw.args@.len() == 0 && raw.has_token_tree)
                    ==> attr.kind == InkAttributeKind::Arg(InkArgKind::Unknown)
                &&& (raw.path_segments@.len() == 1 && raw.args@.len() == 0 && !raw.has_token_tree)
                    ==> attr.kind == InkAttributeKind::Macro(InkMacroKind::Unknown)
                &&& (raw.path_segments@.len() == 1 && raw.args@.len() > 0) ==> {
                    &&& attr.primary_arg matches Some(p) && is_primary_index(
                        spec_arg_kinds_of(raw.args@),
                        p as int,
                    )
                    &&& forall|i: int|
                        is_primary_index(spec_arg_kinds_of(raw.args@), i) ==> attr.kind
                            == InkAttributeKind::Arg(spec_arg_kinds_of(raw.args@)[i])
                }
            },
    {
        let RawAttr { mut path_segments, args: raw_args, has_token_tree, text, range } = raw;
        if path_segments.len() == 0 {
            return None;
        }
        let is_ink = str_eq(path_segments[0].text.as_str(), "ink");
        let is_ink_e2e = str_eq(path_segments[0].text.as_str(), "ink_e2e");
        if !is_ink && !is_ink_e2e {
            return None;
        }
        let n_segments = path_segments.len();
        let ink_segment = path_segments.remove(0);

        // Parses all argument entries, independent of validity; unknown names
        // become `InkArgKind::Unknown` but are still carried.
        let ghost metas0 = raw_args@;
        let mut rest = raw_args;
        let mut args: Vec<InkArg> = Vec::new();
        while rest.len() > 0
            invariant
                args@.len() + rest@.len() == metas0.len(),
                rest@ =~= metas0.subrange(args@.len() as int, metas0.len() as int),
                args@ =~= spec_args_of(metas0.take(args@.len() as int)),
            decreases rest@.len(),
        {
            let m = rest.remove(0);
            proof {
                assert(m == metas0[args@.len() as int]);
            }
            args.push(InkArg::new(m));
            proof {
                assert(args@ =~= spec_args_of(metas0.take(args@.len() as int)));
            }
        }
        proof {
            assert(metas0.take(metas0.len() as int) =~= metas0);
        }

        let mut ink_macro: Option<MetaName> = None;
        let mut primary_arg: Option<usize> = None;
        let kind: InkAttributeKind = if n_segments >= 2 {
            // More than one path segment means an ink! attribute macro,
            // e.g. `#[ink::contract]` or `#[ink_e2e::test]`; more than two
            // means an unknown one, e.g. `#[ink::abc::xyz]`.
            if n_segments > 2 {
                InkAttributeKind::Macro(InkMacroKind::Unknown)
            } else {
                let macro_segment = path_segments.remove(0);
                let k = InkMacroKind::from_path(
                    ink_segment.text.as_str(),
                    macro_segment.text.as_str(),
                );
                ink_macro = Some(macro_segment);
                InkAttributeKind::Macro(k)
            }
        } else if args.len() == 0 {
            if has_token_tree {
                // A token tree means an unknown ink! attribute argument.
                InkAttributeKind::Arg(InkArgKind::Unknown)
            } else {
                // No token tree means an unknown ink! attribute macro.
                InkAttributeKind::Macro(InkMacroKind::Unknown)
            }
        } else {
            // The "primary" argument kind becomes the attribute kind.
            let p = primary_index(&args);
            primary_arg = Some(p);
            proof {
                assert(spec_arg_kinds_of(metas0) =~= args@.map_values(|a: InkArg| a.kind));
                lemma_primary_index_unique(
                    spec_arg_kinds_of(metas0),
                    p as int,
                    spec_primary_index_of(spec_arg_kinds_of(metas0)),
                );
            }
            InkAttributeKind::Arg(args[p].kind)
        };

        Some(
            InkAttribute {
                kind,
                args,
                text,
                range,
                has_token_tree,
                ink: ink_segment,
                ink_macro,
                primary_arg,
            },
        )
    }
}

/// Returns the position of the "primary" argument: the first argument of
/// minimal rank.
fn primary_index(args: &Vec<InkArg>) -> (r: usize)
    requires
        args@.len() > 0,
    ensures
        is_primary_index(args@.map_values(|a: InkArg| a.kind), r as int),
{
    let ghost ks = args@.map_values(|a: InkArg| a.kind);
    let mut best: usize = 0;
    let mut best_rank = crate::arg::ink_arg_kind_sort_order(args[0].kind);
    let mut i: usize = 1;
    while i < args.len()
        invariant
            0 <= best < i <= args@.len(),
            ks.len() == args@.len(),
            forall|j: int| 0 <= j < ks.len() ==> ks[j] == args@[j].kind,
            best_rank == spec_ink_arg_kind_sort_order(ks[best as int]),
            forall|j: int|
                0 <= j < i ==> best_rank <= spec_ink_arg_kind_sort_order(#[trigger] ks[j]),
            forall|j: int|
                0 <= j < best ==> best_rank < spec_ink_arg_kind_sort_order(#[trigger] ks[j]),
        decreases args@.len() - i,
    {
        let rank = crate::arg::ink_arg_kind_sort_order(args[i].kind);
        if rank < best_rank {
            best = i;
            best_rank = rank;
        }
        i += 1;
    }
    best
}

} // verus!
