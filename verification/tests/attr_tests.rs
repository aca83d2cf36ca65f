//! Tests for the ink! attribute classifier.

use ink_analyzer::arg::InkArgKind;
use ink_analyzer::attr::{InkAttribute, InkAttributeKind, InkMacroKind, RawAttr};
use ink_analyzer::meta::{MetaName, MetaNameValue, MetaOption, MetaValue, MetaValueKind};
use ink_analyzer::TextRange;

fn r0() -> TextRange {
    TextRange { start: 0, end: 0 }
}

fn nm(t: &str) -> MetaName {
    MetaName { text: t.to_string(), range: r0() }
}

fn arg(name: &str, value: Option<(MetaValueKind, &str)>) -> MetaNameValue {
    MetaNameValue {
        name: MetaOption::Present(nm(name)),
        value: match value {
            Some((k, t)) => {
                MetaOption::Present(MetaValue { kind: k, text: t.to_string(), range: r0() })
            }
            None => MetaOption::Missing,
        },
        range: r0(),
    }
}

fn raw(segs: &[&str], args: Vec<MetaNameValue>, has_tt: bool) -> RawAttr {
    RawAttr {
        path_segments: segs.iter().map(|s| nm(s)).collect(),
        args,
        has_token_tree: has_tt,
        text: String::new(),
        range: r0(),
    }
}

#[test]
fn cast_ink_attribute_works() {
    let int = MetaValueKind::Int;
    let st = MetaValueKind::Str;
    let tru = MetaValueKind::True;
    let fal = MetaValueKind::False;
    let path = MetaValueKind::Path;
    let wild = MetaValueKind::Wildcard;
    for (attr, expected) in [
        // Macro with no arguments.
        (
            raw(&["ink", "chain_extension"], vec![], false),
            Some((InkAttributeKind::Macro(InkMacroKind::ChainExtension), vec![])),
        ),
        (
            raw(&["ink", "contract"], vec![], false),
            Some((InkAttributeKind::Macro(InkMacroKind::Contract), vec![])),
        ),
        (
            raw(&["ink", "storage_item"], vec![], false),
            Some((InkAttributeKind::Macro(InkMacroKind::StorageItem), vec![])),
        ),
        (
            raw(&["ink", "test"], vec![], false),
            Some((InkAttributeKind::Macro(InkMacroKind::Test), vec![])),
        ),
        (
            raw(&["ink", "trait_definition"], vec![], false),
            Some((InkAttributeKind::Macro(InkMacroKind::TraitDefinition), vec![])),
        ),
        (
            raw(&["ink_e2e", "test"], vec![], false),
            Some((InkAttributeKind::Macro(InkMacroKind::E2ETest), vec![])),
        ),
        // Macro with arguments.
        (
            raw(
                &["ink", "contract"],
                vec![
                    arg("env", Some((path, "my::env::Types"))),
                    arg("keep_attr", Some((st, "\"foo,bar\""))),
                ],
                true,
            ),
            Some((
                InkAttributeKind::Macro(InkMacroKind::Contract),
                vec![(InkArgKind::Env, Some(path)), (InkArgKind::KeepAttr, Some(st))],
            )),
        ),
        (
            raw(&["ink", "storage_item"], vec![arg("derive", Some((tru, "true")))], true),
            Some((
                InkAttributeKind::Macro(InkMacroKind::StorageItem),
                vec![(InkArgKind::Derive, Some(tru))],
            )),
        ),
        (
            raw(
                &["ink", "trait_definition"],
                vec![
                    arg("namespace", Some((st, "\"my_namespace\""))),
                    arg("keep_attr", Some((st, "\"foo,bar\""))),
                ],
                true,
            ),
            Some((
                InkAttributeKind::Macro(InkMacroKind::TraitDefinition),
                vec![(InkArgKind::Namespace, Some(st)), (InkArgKind::KeepAttr, Some(st))],
            )),
        ),
        (
            raw(
                &["ink_e2e", "test"],
                vec![
                    arg(
                        "additional_contracts",
                        Some((st, "\"adder/Cargo.toml flipper/Cargo.toml\"")),
                    ),
                    arg("environment", Some((path, "my::env::Types"))),
                    arg("keep_attr", Some((st, "\"foo,bar\""))),
                ],
                true,
            ),
            Some((
                InkAttributeKind::Macro(InkMacroKind::E2ETest),
                vec![
                    (InkArgKind::AdditionalContracts, Some(st)),
                    (InkArgKind::Environment, Some(path)),
                    (InkArgKind::KeepAttr, Some(st)),
                ],
            )),
        ),
        // Argument with no value.
        (
            raw(&["ink"], vec![arg("storage", None)], true),
            Some((
                InkAttributeKind::Arg(InkArgKind::Storage),
                vec![(InkArgKind::Storage, None)],
            )),
        ),
        (
            raw(&["ink"], vec![arg("anonymous", None)], true),
            Some((
                InkAttributeKind::Arg(InkArgKind::Anonymous),
                vec![(InkArgKind::Anonymous, None)],
            )),
        ),
        // Compound arguments with no value: an entity-defining argument
        // always becomes the attribute kind, regardless of position.
        (
            raw(&["ink"], vec![arg("event", None), arg("anonymous", None)], true),
            Some((
                InkAttributeKind::Arg(InkArgKind::Event),
                vec![(InkArgKind::Event, None), (InkArgKind::Anonymous, None)],
            )),
        ),
        (
            raw(&["ink"], vec![arg("anonymous", None), arg("event", None)], true),
            Some((
                InkAttributeKind::Arg(InkArgKind::Event),
                vec![(InkArgKind::Anonymous, None), (InkArgKind::Event, None)],
            )),
        ),
        // Argument with integer value.
        (
            raw(&["ink"], vec![arg("selector", Some((int, "1")))], true),
            Some((
                InkAttributeKind::Arg(InkArgKind::Selector),
                vec![(InkArgKind::Selector, Some(int))],
            )),
        ),
        (
            raw(&["ink"], vec![arg("extension", Some((int, "0x1")))], true),
            Some((
                InkAttributeKind::Arg(InkArgKind::Extension),
                vec![(InkArgKind::Extension, Some(int))],
            )),
        ),
        // Argument with wildcard/underscore value.
        (
            raw(&["ink"], vec![arg("selector", Some((wild, "_")))], true),
            Some((
                InkAttributeKind::Arg(InkArgKind::Selector),
                vec![(InkArgKind::Selector, Some(wild))],
            )),
        ),
        // Argument with string value.
        (
            raw(&["ink"], vec![arg("namespace", Some((st, "\"my_namespace\"")))], true),
            Some((
                InkAttributeKind::Arg(InkArgKind::Namespace),
                vec![(InkArgKind::Namespace, Some(st))],
            )),
        ),
        // Argument with boolean value.
        (
            raw(&["ink"], vec![arg("handle_status", Some((tru, "true")))], true),
            Some((
                InkAttributeKind::Arg(InkArgKind::HandleStatus),
                vec![(InkArgKind::HandleStatus, Some(tru))],
            )),
        ),
        (
            raw(&["ink"], vec![arg("derive", Some((fal, "false")))], true),
            Some((
                InkAttributeKind::Arg(InkArgKind::Derive),
                vec![(InkArgKind::Derive, Some(fal))],
            )),
        ),
        // Argument with path value.
        (
            raw(&["ink"], vec![arg("env", Some((path, "my::env::Types")))], true),
            Some((InkAttributeKind::Arg(InkArgKind::Env), vec![(InkArgKind::Env, Some(path))])),
        ),
        // Compound arguments of different kinds.
        (
            raw(
                &["ink"],
                vec![arg("message", None), arg("payable", None), arg("selector", Some((int, "1")))],
                true,
            ),
            Some((
                InkAttributeKind::Arg(InkArgKind::Message),
                vec![
                    (InkArgKind::Message, None),
                    (InkArgKind::Payable, None),
                    (InkArgKind::Selector, Some(int)),
                ],
            )),
        ),
        (
            raw(
                &["ink"],
                vec![arg("selector", Some((int, "1"))), arg("payable", None), arg("message", None)],
                true,
            ),
            Some((
                InkAttributeKind::Arg(InkArgKind::Message),
                vec![
                    (InkArgKind::Selector, Some(int)),
                    (InkArgKind::Payable, None),
                    (InkArgKind::Message, None),
                ],
            )),
        ),
        (
            raw(
                &["ink"],
                vec![arg("extension", Some((int, "1"))), arg("handle_status", Some((fal, "false")))],
                true,
            ),
            Some((
                InkAttributeKind::Arg(InkArgKind::Extension),
                vec![(InkArgKind::Extension, Some(int)), (InkArgKind::HandleStatus, Some(fal))],
            )),
        ),
        // Unknown ink! macro.
        (
            raw(&["ink"], vec![], false),
            Some((InkAttributeKind::Macro(InkMacroKind::Unknown), vec![])),
        ),
        (
            raw(&["ink", "unknown"], vec![], false),
            Some((InkAttributeKind::Macro(InkMacroKind::Unknown), vec![])),
        ),
        (
            raw(&["ink", "xyz"], vec![], false),
            Some((InkAttributeKind::Macro(InkMacroKind::Unknown), vec![])),
        ),
        (
            raw(&["ink", "abc", "xyz"], vec![], false),
            Some((InkAttributeKind::Macro(InkMacroKind::Unknown), vec![])),
        ),
        (
            raw(&["ink", "unknown"], vec![arg("message", None)], true),
            Some((
                InkAttributeKind::Macro(InkMacroKind::Unknown),
                vec![(InkArgKind::Message, None)],
            )),
        ),
        (
            raw(&["ink", "unknown"], vec![arg("selector", Some((int, "1")))], true),
            Some((
                InkAttributeKind::Macro(InkMacroKind::Unknown),
                vec![(InkArgKind::Selector, Some(int))],
            )),
        ),
        // Unknown ink! argument: a bare reserved path with a token tree but
        // no parsed arguments is an unknown argument, not an unknown macro.
        (
            raw(&["ink"], vec![], true),
            Some((InkAttributeKind::Arg(InkArgKind::Unknown), vec![])),
        ),
        (
            raw(&["ink"], vec![arg("unknown", None)], true),
            Some((
                InkAttributeKind::Arg(InkArgKind::Unknown),
                vec![(InkArgKind::Unknown, None)],
            )),
        ),
        (
            raw(&["ink"], vec![arg("xyz", None)], true),
            Some((
                InkAttributeKind::Arg(InkArgKind::Unknown),
                vec![(InkArgKind::Unknown, None)],
            )),
        ),
        (
            raw(&["ink"], vec![arg("xyz", Some((st, "\"abc\"")))], true),
            Some((
                InkAttributeKind::Arg(InkArgKind::Unknown),
                vec![(InkArgKind::Unknown, Some(st))],
            )),
        ),
        (
            raw(&["ink"], vec![arg("message", None), arg("unknown", None)], true),
            Some((
                InkAttributeKind::Arg(InkArgKind::Message),
                vec![(InkArgKind::Message, None), (InkArgKind::Unknown, None)],
            )),
        ),
        (
            raw(&["ink"], vec![arg("unknown", None), arg("message", None)], true),
            Some((
                InkAttributeKind::Arg(InkArgKind::Message),
                vec![(InkArgKind::Unknown, None), (InkArgKind::Message, None)],
            )),
        ),
        // Non-ink attributes simply return none.
        (raw(&["cfg_attr"], vec![arg("no_std", None)], true), None),
    ] {
        // Converts an attribute to an ink! attribute (if possible).
        let possible_ink_attr = InkAttribute::cast(attr);

        let actual: Option<(InkAttributeKind, Vec<(InkArgKind, Option<MetaValueKind>)>)> =
            possible_ink_attr.map(|ink_attr| {
                (
                    *ink_attr.kind(),
                    ink_attr
                        .args()
                        .iter()
                        .map(|a| (*a.kind(), a.value().map(|v| v.kind)))
                        .collect(),
                )
            });

        assert_eq!(actual, expected);
    }
}

#[test]
fn entity_argument_wins_regardless_of_order() {
    // All argument orderings of `selector = 1`, `payable` and `message`
    // classify as `message`.
    let int = MetaValueKind::Int;
    for args in [
        vec![arg("selector", Some((int, "1"))), arg("payable", None), arg("message", None)],
        vec![arg("message", None), arg("selector", Some((int, "1"))), arg("payable", None)],
        vec![arg("payable", None), arg("message", None), arg("selector", Some((int, "1")))],
    ] {
        let ink_attr = InkAttribute::cast(raw(&["ink"], args, true)).unwrap();
        assert_eq!(*ink_attr.kind(), InkAttributeKind::Arg(InkArgKind::Message));
    }
}

#[test]
fn empty_token_tree_is_unknown_argument() {
    // A reserved namespace path with a token tree present but holding no
    // arguments classifies as an unknown argument...
    let with_tree = InkAttribute::cast(raw(&["ink"], vec![], true)).unwrap();
    assert_eq!(*with_tree.kind(), InkAttributeKind::Arg(InkArgKind::Unknown));
    // ...while the same without any token tree is an unknown macro.
    let without_tree = InkAttribute::cast(raw(&["ink"], vec![], false)).unwrap();
    assert_eq!(
        *without_tree.kind(),
        InkAttributeKind::Macro(InkMacroKind::Unknown)
    );
}
