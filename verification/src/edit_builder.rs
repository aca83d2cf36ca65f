//! Edit construction: canonical insertion text for each argument kind (plain
//! and snippet forms from one definition, so the two cannot drift apart),
//! insertion offsets and affixes for extending an existing attribute, and the
//! stable priority sort and canonical rendering of argument lists.

use vstd::prelude::*;
use vstd::string::StringExecFns;

use crate::arg::{
    spec_arg_kind_name, spec_arg_value_kind, spec_ink_arg_kind_sort_order, InkArg, InkArgKind,
    InkArgValueKind,
};
use crate::attr::InkAttribute;
use crate::meta::MetaOption;
use crate::strutil::{str_concat, str_concat3, str_concat5};
use crate::tree::Item;
use crate::TextRange;

verus! {

/// The default value inserted for an argument kind that takes a value.
pub open spec fn spec_arg_default_value(kind: InkArgKind) -> Seq<char> {
    match kind {
        InkArgKind::Extension | InkArgKind::Selector => "1"@,
        InkArgKind::HandleStatus | InkArgKind::Derive => "true"@,
        InkArgKind::Env | InkArgKind::Environment => "crate::"@,
        InkArgKind::Namespace => "\"my_namespace\""@,
        _ => "\"\""@,
    }
}

/// The plain insertion text for an argument kind: its bare name, or
/// `name = default` for kinds that take a value.
pub open spec fn spec_arg_insert_text(kind: InkArgKind) -> Seq<char> {
    if spec_arg_value_kind(kind) == InkArgValueKind::NoValue {
        spec_arg_kind_name(kind)
    } else {
        spec_arg_kind_name(kind) + " = "@ + spec_arg_default_value(kind)
    }
}

/// The snippet insertion text for an argument kind: the plain text with the
/// default value wrapped in a placeholder marker; kinds without a value have
/// no snippet.
pub open spec fn spec_arg_insert_snippet(kind: InkArgKind) -> Option<Seq<char>> {
    if spec_arg_value_kind(kind) == InkArgValueKind::NoValue {
        Option::None
    } else {
        Some(spec_arg_kind_name(kind) + " = ${1:"@ + spec_arg_default_value(kind) + "}"@)
    }
}

/// Builds the plain and snippet insertion texts for an argument kind.
pub fn ink_arg_insert_text(kind: InkArgKind) -> (r: (String, Option<String>))
    ensures
        r.0@ == spec_arg_insert_text(kind),
        match spec_arg_insert_snippet(kind) {
            Some(s) => r.1 matches Some(t) && t@ == s,
            Option::None => r.1 is None,
        },
{
    let name = kind.name_as_str();
    let value_kind = InkArgValueKind::from_arg_kind(kind);
    if value_kind == InkArgValueKind::NoValue {
        (String::from_str(name), None)
    } else {
        let default_value = match kind {
            InkArgKind::Extension | InkArgKind::Selector => "1",
            InkArgKind::HandleStatus | InkArgKind::Derive => "true",
            InkArgKind::Env | InkArgKind::Environment => "crate::",
            InkArgKind::Namespace => "\"my_namespace\"",
            _ => "\"\"",
        };
        proof {
            assert(default_value@ == spec_arg_default_value(kind));
        }
        let text = str_concat3(name, " = ", default_value);
        let snippet = str_concat5(name, " = ", "${1:", default_value, "}");
        proof {
            reveal_strlit(" = ");
            reveal_strlit("${1:");
            reveal_strlit(" = ${1:");
            assert(snippet@ =~= spec_arg_kind_name(kind) + " = ${1:"@ + spec_arg_default_value(
                kind,
            ) + "}"@);
        }
        (text, Some(snippet))
    }
}

/// The offset immediately before an item's first own token (after attributes
/// and doc comments), where a new attribute is inserted.
pub open spec fn spec_attr_insert_offset(item: Item) -> int {
    match item.decl_range {
        Some(d) => d.start as int,
        Option::None => item.range.start as int,
    }
}

/// Returns the offset at which a new attribute is inserted for the item.
pub fn ink_attribute_insert_offset(item: &Item) -> (r: usize)
    ensures
        r as int == spec_attr_insert_offset(*item),
{
    match &item.decl_range {
        Some(d) => d.start,
        None => item.range.start,
    }
}

/// How an existing attribute is extended with one more argument: the offset
/// just before its closing delimiter, with a `", "` separator when an
/// argument list is already present, or a fresh parenthesized list just
/// before the closing `]` when the attribute has no token tree.  Attributes
/// too short to carry delimiters cannot be extended.
pub open spec fn spec_extend_parts(attr: InkAttribute) -> Option<(int, Seq<char>, Seq<char>)> {
    if attr.range.start + 2 <= attr.range.end {
        if attr.has_token_tree {
            Some(
                (
                    attr.range.end - 2,
                    if attr.args@.len() > 0 {
                        ", "@
                    } else {
                        ""@
                    },
                    ""@,
                ),
            )
        } else {
            Some((attr.range.end - 1, "("@, ")"@))
        }
    } else {
        Option::None
    }
}

/// Returns the insertion offset, prefix and suffix for extending an existing
/// attribute with one more argument, if the attribute can be extended.
pub fn ink_arg_insert_offset_and_affixes(attr: &InkAttribute) -> (r: Option<
    (usize, &'static str, &'static str),
>)
    ensures
        match spec_extend_parts(*attr) {
            Some((o, pre, suf)) => r matches Some((ro, rpre, rsuf)) && ro as int == o && rpre@
                == pre && rsuf@ == suf,
            Option::None => r is None,
        },
{
    if attr.range.end >= 2 && attr.range.start <= attr.range.end - 2 {
        if attr.has_token_tree {
            let pre: &'static str = if attr.args.len() > 0 {
                ", "
            } else {
                ""
            };
            Some((attr.range.end - 2, pre, ""))
        } else {
            Some((attr.range.end - 1, "(", ")"))
        }
    } else {
        None
    }
}

/// The canonical textual rendering of one argument: `name = value`, a bare
/// `name`, or the bare value, per what is present.
pub open spec fn spec_render_arg(arg: InkArg) -> Seq<char> {
    match (arg.meta.name, arg.meta.value) {
        (MetaOption::Present(n), MetaOption::Present(v)) => n.text@ + " = "@ + v.text@,
        (MetaOption::Present(n), _) => n.text@,
        (_, MetaOption::Present(v)) => v.text@,
        _ => Seq::empty(),
    }
}

/// Renders one argument in its canonical textual form.
pub fn render_arg(arg: &InkArg) -> (r: String)
    ensures
        r@ == spec_render_arg(*arg),
{
    match (&arg.meta.name, &arg.meta.value) {
        (MetaOption::Present(n), MetaOption::Present(v)) => str_concat3(
            n.text.as_str(),
            " = ",
            v.text.as_str(),
        ),
        (MetaOption::Present(n), _) => String::from_str(n.text.as_str()),
        (_, MetaOption::Present(v)) => String::from_str(v.text.as_str()),
        _ => String::new(),
    }
}

/// The canonical rendering of an argument list, comma separated.
pub open spec fn spec_join_args(args: Seq<InkArg>) -> Seq<char>
    decreases args.len(),
{
    if args.len() == 0 {
        Seq::empty()
    } else if args.len() == 1 {
        spec_render_arg(args[0])
    } else {
        spec_join_args(args.drop_last()) + ", "@ + spec_render_arg(args.last())
    }
}

/// Renders an argument list in its canonical textual form, comma separated.
pub fn join_args(args: &Vec<InkArg>) -> (r: String)
    ensures
        r@ == spec_join_args(args@),
{
    let mut out = String::new();
    let mut i: usize = 0;
    proof {
        assert(args@.take(0) =~= Seq::<InkArg>::empty());
    }
    while i < args.len()
        invariant
            0 <= i <= args@.len(),
            out@ == spec_join_args(args@.take(i as int)),
        decreases args@.len() - i,
    {
        let piece = render_arg(&args[i]);
        let next = if i == 0 {
            piece
        } else {
            str_concat3(out.as_str(), ", ", piece.as_str())
        };
        out = next;
        proof {
            assert(args@.take(i + 1).drop_last() =~= args@.take(i as int));
            assert(args@.take(i + 1).last() == args@[i as int]);
            assert(args@.take(i + 1)[0] == args@[0]);
        }
        i += 1;
    }
    proof {
        assert(args@.take(args@.len() as int) =~= args@);
    }
    out
}

/// Insertion of one argument into a list: the argument lands before the
/// first position holding a strictly lower-priority (higher-rank) argument,
/// i.e. after every argument of its own or higher priority.
pub open spec fn spec_insert_arg(a: InkArg, s: Seq<InkArg>) -> Seq<InkArg>
    decreases s.len(),
{
    if s.len() == 0 {
        seq![a]
    } else if spec_ink_arg_kind_sort_order(a.kind) < spec_ink_arg_kind_sort_order(s[0].kind) {
        seq![a] + s
    } else {
        seq![s[0]] + spec_insert_arg(a, s.drop_first())
    }
}

/// The stable priority sort of an argument list: arguments are taken in
/// source order and each is inserted after all arguments of equal or higher
/// priority, so the sort is ascending by rank and stable on ties.
pub open spec fn spec_sort_args(s: Seq<InkArg>) -> Seq<InkArg>
    decreases s.len(),
{
    if s.len() == 0 {
        Seq::empty()
    } else {
        spec_insert_arg(s.last(), spec_sort_args(s.drop_last()))
    }
}

/// Where `spec_insert_arg` places the element: at the first position whose
/// rank exceeds the element's own.
proof fn lemma_insert_arg_at(a: InkArg, t: Seq<InkArg>, p: int)
    requires
        0 <= p <= t.len(),
        forall|j: int|
            0 <= j < p ==> spec_ink_arg_kind_sort_order((#[trigger] t[j]).kind)
                <= spec_ink_arg_kind_sort_order(a.kind),
        p < t.len() ==> spec_ink_arg_kind_sort_order(a.kind) < spec_ink_arg_kind_sort_order(
            t[p as int].kind,
        ),
    ensures
        spec_insert_arg(a, t) =~= t.take(p) + seq![a] + t.skip(p),
    decreases t.len(),
{
    if t.len() == 0 {
        assert(spec_insert_arg(a, t) =~= t.take(p) + seq![a] + t.skip(p));
    } else if spec_ink_arg_kind_sort_order(a.kind) < spec_ink_arg_kind_sort_order(t[0].kind) {
        assert(p == 0);
        assert(spec_insert_arg(a, t) =~= t.take(0) + seq![a] + t.skip(0));
    } else {
        assert(p > 0);
        lemma_insert_arg_at(a, t.drop_first(), p - 1);
        assert(t.drop_first().take(p - 1) =~= t.take(p).drop_first());
        assert(t.drop_first().skip(p - 1) =~= t.skip(p));
        assert(seq![t[0]] + spec_insert_arg(a, t.drop_first()) =~= t.take(p) + seq![a] + t.skip(
            p,
        ));
    }
}

/// Finds the first position in `v` whose argument outranks `rank`.
fn find_insert_pos(v: &Vec<InkArg>, rank: u8) -> (p: usize)
    ensures
        0 <= p <= v@.len(),
        forall|j: int|
            0 <= j < p ==> spec_ink_arg_kind_sort_order((#[trigger] v@[j]).kind) <= rank as int,
        p < v@.len() ==> (rank as int) < spec_ink_arg_kind_sort_order(v@[p as int].kind),
{
    let mut p: usize = 0;
    while p < v.len()
        invariant
            0 <= p <= v@.len(),
            forall|j: int|
                0 <= j < p ==> spec_ink_arg_kind_sort_order((#[trigger] v@[j]).kind)
                    <= rank as int,
        decreases v@.len() - p,
    {
        if crate::arg::ink_arg_kind_sort_order(v[p].kind) > rank {
            return p;
        }
        p += 1;
    }
    p
}

/// Sorts an argument list by priority rank, stably.
pub fn sort_args(args: Vec<InkArg>) -> (r: Vec<InkArg>)
    ensures
        r@ == spec_sort_args(args@),
{
    let mut out: Vec<InkArg> = Vec::new();
    let mut i: usize = 0;
    proof {
        assert(args@.take(0) =~= Seq::<InkArg>::empty());
    }
    while i < args.len()
        invariant
            0 <= i <= args@.len(),
            out@ == spec_sort_args(args@.take(i as int)),
            out@.len() == i,
        decreases args@.len() - i,
    {
        let a = args[i].clone();
        let rank = crate::arg::ink_arg_kind_sort_order(a.kind);
        let p = find_insert_pos(&out, rank);
        let ghost out0 = out@;
        out.insert(p, a);
        proof {
            lemma_insert_arg_at(a, out0, p as int);
            assert(out@ =~= out0.take(p as int) + seq![a] + out0.skip(p as int));
            assert(args@.take(i + 1).drop_last() =~= args@.take(i as int));
            assert(args@.take(i + 1).last() == args@[i as int]);
            assert(a == args@[i as int]);
            assert(out@ =~= spec_sort_args(args@.take(i + 1)));
        }
        i += 1;
    }
    proof {
        assert(args@.take(args@.len() as int) =~= args@);
    }
    out
}

} // verus!
