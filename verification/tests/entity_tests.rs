//! Tests for the extension and topic entities.

use ink_analyzer::attr::RawAttr;
use ink_analyzer::extension::Extension;
use ink_analyzer::meta::{MetaName, MetaNameValue, MetaOption, MetaValue, MetaValueKind};
use ink_analyzer::topic::Topic;
use ink_analyzer::tree::{classify_attrs, InkFile, Item, ItemKind};
use ink_analyzer::TextRange;

fn rng(start: usize, end: usize) -> TextRange {
    TextRange { start, end }
}

fn nm(t: &str) -> MetaName {
    MetaName { text: t.to_string(), range: rng(0, 0) }
}

fn arg(name: &str, value: Option<(MetaValueKind, &str)>) -> MetaNameValue {
    MetaNameValue {
        name: MetaOption::Present(nm(name)),
        value: match value {
            Some((k, t)) => MetaOption::Present(MetaValue {
                kind: k,
                text: t.to_string(),
                range: rng(0, t.len()),
            }),
            None => MetaOption::Missing,
        },
        range: rng(0, 0),
    }
}

fn raw(segs: &[&str], args: Vec<MetaNameValue>, text: &str, range: TextRange) -> RawAttr {
    RawAttr {
        path_segments: segs.iter().map(|s| nm(s)).collect(),
        args,
        has_token_tree: true,
        text: text.to_string(),
        range,
    }
}

fn fn_item_with_attrs(attrs: Vec<RawAttr>) -> InkFile {
    InkFile {
        text_len: 100,
        tokens: vec![],
        items: vec![
            Item {
                kind: ItemKind::Function,
                name: None,
                parent: None,
                range: rng(0, 100),
                decl_range: Some(rng(50, 70)),
                terminal_range: Some(rng(99, 100)),
                attrs: classify_attrs(attrs),
                fn_data: None,
                is_trait_impl: false,
            },
        ],
    }
}

#[test]
fn extension_cast_works() {
    let int = MetaValueKind::Int;
    let fal = MetaValueKind::False;
    let tru = MetaValueKind::True;
    for (attrs, has_handle_status) in [
        // `#[ink(extension=1)]`
        (
            vec![raw(
                &["ink"],
                vec![arg("extension", Some((int, "1")))],
                "#[ink(extension=1)]",
                rng(0, 19),
            )],
            false,
        ),
        // `#[ink(extension=0x1)]`
        (
            vec![raw(
                &["ink"],
                vec![arg("extension", Some((int, "0x1")))],
                "#[ink(extension=0x1)]",
                rng(0, 21),
            )],
            false,
        ),
        // `#[ink(extension=1, handle_status=false)]`
        (
            vec![raw(
                &["ink"],
                vec![
                    arg("extension", Some((int, "1"))),
                    arg("handle_status", Some((fal, "false"))),
                ],
                "#[ink(extension=1, handle_status=false)]",
                rng(0, 41),
            )],
            true,
        ),
        // `#[ink(extension=1)]` and `#[ink(handle_status=true)]` as two
        // separate sibling attributes.
        (
            vec![
                raw(
                    &["ink"],
                    vec![arg("extension", Some((int, "1")))],
                    "#[ink(extension=1)]",
                    rng(0, 19),
                ),
                raw(
                    &["ink"],
                    vec![arg("handle_status", Some((tru, "true")))],
                    "#[ink(handle_status=true)]",
                    rng(20, 46),
                ),
            ],
            true,
        ),
    ] {
        let file = fn_item_with_attrs(attrs);
        let extension = Extension::cast(&file, 0).unwrap();

        // The `extension` argument exists.
        assert!(extension.extension_arg(&file).is_some());

        // The `handle_status` argument exists as expected.
        assert_eq!(extension.handle_status_arg(&file).is_some(), has_handle_status);

        // The `fn` item exists.
        assert!(extension.fn_item(&file).is_some());
    }
}

#[test]
fn topic_cast_works() {
    // `pub struct MyEvent { #[ink(topic)] value: i32 }`
    let file = InkFile {
        text_len: 60,
        tokens: vec![],
        items: vec![
            Item {
                kind: ItemKind::Struct,
                name: None,
                parent: None,
                range: rng(0, 60),
                decl_range: Some(rng(0, 18)),
                terminal_range: Some(rng(59, 60)),
                attrs: classify_attrs(vec![]),
                fn_data: None,
                is_trait_impl: false,
            },
            Item {
                kind: ItemKind::RecordField,
                name: None,
                parent: Some(0),
                range: rng(21, 55),
                decl_range: Some(rng(35, 55)),
                terminal_range: None,
                attrs: classify_attrs(vec![raw(
                    &["ink"],
                    vec![arg("topic", None)],
                    "#[ink(topic)]",
                    rng(21, 34),
                )]),
                fn_data: None,
                is_trait_impl: false,
            },
        ],
    };
    let topic = Topic::cast(&file, 1).unwrap();

    // The `field` item exists.
    assert!(topic.field(&file).is_some());
}
