//! Scenario tests for item-based actions.

use ink_analyzer::actions::{actions, is_focused_on_item_body, is_focused_on_item_declaration};
use ink_analyzer::attr::RawAttr;
use ink_analyzer::meta::{MetaName, MetaNameValue, MetaOption, MetaValue, MetaValueKind};
use ink_analyzer::tree::{classify_attrs, InkFile, Item, ItemKind, Token, TokenKind};
use ink_analyzer::TextRange;

fn rng(start: usize, end: usize) -> TextRange {
    TextRange { start, end }
}

fn nm(t: &str, start: usize) -> MetaName {
    MetaName { text: t.to_string(), range: rng(start, start + t.len()) }
}

fn arg(name: &str, value: Option<(MetaValueKind, &str)>) -> MetaNameValue {
    MetaNameValue {
        name: MetaOption::Present(nm(name, 0)),
        value: match value {
            Some((k, t)) => MetaOption::Present(MetaValue {
                kind: k,
                text: t.to_string(),
                range: rng(0, t.len()),
            }),
            None => MetaOption::Missing,
        },
        range: rng(0, 0),
    }
}

fn raw(segs: &[&str], args: Vec<MetaNameValue>, has_tt: bool, text: &str, range: TextRange) -> RawAttr {
    RawAttr {
        path_segments: segs.iter().map(|s| nm(s, 0)).collect(),
        args,
        has_token_tree: has_tt,
        text: text.to_string(),
        range,
    }
}

fn tok(kind: TokenKind, text: &str, start: usize) -> Token {
    Token { kind, text: text.to_string(), range: rng(start, start + text.len()) }
}

fn item(
    kind: ItemKind,
    parent: Option<usize>,
    range: TextRange,
    decl: Option<TextRange>,
    term: Option<TextRange>,
    attrs: Vec<RawAttr>,
) -> Item {
    Item {
        kind,
        name: None,
        parent,
        range,
        decl_range: decl,
        terminal_range: term,
        attrs: classify_attrs(attrs),
        fn_data: None,
        is_trait_impl: false,
    }
}

#[test]
fn is_focused_on_item_declaration_and_body_works() {
    let module = item(
        ItemKind::Module,
        None,
        rng(0, 18),
        Some(rng(0, 15)),
        Some(rng(17, 18)),
        vec![],
    );
    // On the `mod` keyword and on the name: declaration focus.
    assert!(is_focused_on_item_declaration(&module, rng(0, 3)));
    assert!(is_focused_on_item_declaration(&module, rng(4, 15)));
    assert!(!is_focused_on_item_body(&module, rng(0, 3)));
    // On the terminating `}`: declaration focus as well.
    assert!(is_focused_on_item_declaration(&module, rng(17, 18)));
    // Between the header's end and the terminating token: body focus.
    assert!(is_focused_on_item_body(&module, rng(16, 16)));
    assert!(!is_focused_on_item_declaration(&module, rng(16, 16)));
    // An item with no resolvable header/body split reports neither.
    let other = item(ItemKind::Other, None, rng(0, 10), None, None, vec![]);
    assert!(!is_focused_on_item_declaration(&other, rng(0, 1)));
    assert!(!is_focused_on_item_body(&other, rng(0, 1)));
}

#[test]
fn empty_file_offers_root_entities() {
    // An empty file with the cursor at offset zero yields exactly four
    // root-level "add" actions, each inserting its bare attribute macro
    // text at offset zero.
    let file = InkFile { text_len: 0, tokens: vec![], items: vec![] };
    assert!(file.check_wf());
    let results = actions(&file, rng(0, 0));
    assert_eq!(results.len(), 4);
    let expected = [
        ("Add ink! contract.", "#[ink::contract]"),
        ("Add ink! trait definition.", "#[ink::trait_definition]"),
        ("Add ink! chain extension.", "#[ink::chain_extension]"),
        ("Add ink! storage item.", "#[ink::storage_item]"),
    ];
    for (action, (label, text)) in results.iter().zip(expected) {
        assert_eq!(action.label, label);
        assert_eq!(action.edits.len(), 1);
        assert_eq!(action.edits[0].text, text);
        assert_eq!(action.edits[0].range, rng(0, 0));
    }
}

fn bare_module_file() -> InkFile {
    // `mod my_contract {}`
    InkFile {
        text_len: 18,
        tokens: vec![
            tok(TokenKind::Ident, "mod", 0),
            tok(TokenKind::Whitespace, " ", 3),
            tok(TokenKind::Ident, "my_contract", 4),
            tok(TokenKind::Whitespace, " ", 15),
            tok(TokenKind::Other, "{", 16),
            tok(TokenKind::Other, "}", 17),
        ],
        items: vec![
            item(
                ItemKind::Module,
                None,
                rng(0, 18),
                Some(rng(0, 15)),
                Some(rng(17, 18)),
                vec![],
            ),
        ],
    }
}

#[test]
fn bare_module_offers_contract_macro() {
    // `mod my_contract {}` with the cursor on `mod` yields one action
    // inserting `#[ink::contract]` immediately before `mod`.
    let file = bare_module_file();
    assert!(file.check_wf());
    let results = actions(&file, rng(0, 3));
    assert_eq!(results.len(), 1);
    assert_eq!(results[0].label, "Add ink! contract attribute macro.");
    assert_eq!(results[0].edits.len(), 1);
    assert_eq!(results[0].edits[0].text, "#[ink::contract]");
    assert_eq!(results[0].edits[0].range, rng(0, 0));
}

#[test]
fn event_field_offers_topic_argument() {
    // `#[ink(event)] struct MyEvent { my_field: u8 }` with the cursor on
    // `my_field` yields exactly one action inserting `#[ink(topic)]`
    // immediately before the field.
    let attr_text = "#[ink(event)]";
    let file = InkFile {
        text_len: 45,
        tokens: vec![
            tok(TokenKind::Ident, "struct", 14),
            tok(TokenKind::Whitespace, " ", 20),
            tok(TokenKind::Ident, "MyEvent", 21),
            tok(TokenKind::Whitespace, " ", 28),
            tok(TokenKind::Other, "{", 29),
            tok(TokenKind::Whitespace, " ", 30),
            tok(TokenKind::Ident, "my_field", 31),
            tok(TokenKind::Colon, ":", 39),
            tok(TokenKind::Whitespace, " ", 40),
            tok(TokenKind::Ident, "u8", 41),
            tok(TokenKind::Whitespace, " ", 43),
            tok(TokenKind::Other, "}", 44),
        ],
        items: vec![
            item(
                ItemKind::Struct,
                None,
                rng(0, 45),
                Some(rng(14, 28)),
                Some(rng(44, 45)),
                vec![raw(&["ink"], vec![arg("event", None)], true, attr_text, rng(0, 13))],
            ),
            item(
                ItemKind::RecordField,
                Some(0),
                rng(31, 43),
                Some(rng(31, 43)),
                None,
                vec![],
            ),
        ],
    };
    assert!(file.check_wf());
    let results = actions(&file, rng(31, 34));
    assert_eq!(results.len(), 1);
    assert_eq!(results[0].label, "Add ink! topic attribute argument.");
    assert_eq!(results[0].edits.len(), 1);
    assert_eq!(results[0].edits[0].text, "#[ink(topic)]");
    assert_eq!(results[0].edits[0].range, rng(31, 31));
}

fn contract_with_two_attrs_file() -> InkFile {
    // ```
    // #[ink::contract(env=crate::Environment)]
    // #[ink(keep_attr="foo,bar")]
    // mod my_contract {}
    // ```
    let attr1 = raw(
        &["ink", "contract"],
        vec![arg("env", Some((MetaValueKind::Path, "crate::Environment")))],
        true,
        "#[ink::contract(env=crate::Environment)]",
        rng(0, 40),
    );
    let attr2 = raw(
        &["ink"],
        vec![arg("keep_attr", Some((MetaValueKind::Str, "\"foo,bar\"")))],
        true,
        "#[ink(keep_attr=\"foo,bar\")]",
        rng(41, 68),
    );
    InkFile {
        text_len: 87,
        tokens: vec![
            tok(TokenKind::Whitespace, "\n", 40),
            tok(TokenKind::Whitespace, "\n", 68),
            tok(TokenKind::Ident, "mod", 69),
            tok(TokenKind::Whitespace, " ", 72),
            tok(TokenKind::Ident, "my_contract", 73),
            tok(TokenKind::Whitespace, " ", 84),
            tok(TokenKind::Other, "{", 85),
            tok(TokenKind::Other, "}", 86),
        ],
        items: vec![
            item(
                ItemKind::Module,
                None,
                rng(0, 87),
                Some(rng(69, 84)),
                Some(rng(86, 87)),
                vec![attr1, attr2],
            ),
        ],
    }
}

#[test]
fn flatten_contract_attributes_works() {
    // With the cursor before `mod`, one "Flatten" action replaces the first
    // attribute with the merged attribute and deletes the second one, and
    // the usual four entity-add actions for an empty contract module come
    // along.
    let file = contract_with_two_attrs_file();
    assert!(file.check_wf());
    let results = actions(&file, rng(69, 69));
    assert_eq!(results.len(), 5);

    let flatten = &results[0];
    assert_eq!(flatten.label, "Flatten ink! attribute arguments.");
    assert_eq!(flatten.edits.len(), 2);
    assert_eq!(
        flatten.edits[0].text,
        "#[ink::contract(env = crate::Environment, keep_attr = \"foo,bar\")]"
    );
    assert_eq!(flatten.edits[0].range, rng(0, 40));
    assert_eq!(flatten.edits[1].text, "");
    assert_eq!(flatten.edits[1].range, rng(41, 68));

    let labels: Vec<&str> = results.iter().skip(1).map(|a| a.label.as_str()).collect();
    assert_eq!(
        labels,
        vec![
            "Add ink! storage `struct`.",
            "Add ink! event `struct`.",
            "Add ink! constructor `fn`.",
            "Add ink! message `fn`.",
        ]
    );
}

#[test]
fn flatten_is_idempotent_on_its_result() {
    // After applying the flatten action, the item carries one single ink!
    // attribute holding all arguments; no further flatten action is
    // offered for it.
    let merged = raw(
        &["ink", "contract"],
        vec![
            arg("env", Some((MetaValueKind::Path, "crate::Environment"))),
            arg("keep_attr", Some((MetaValueKind::Str, "\"foo,bar\""))),
        ],
        true,
        "#[ink::contract(env = crate::Environment, keep_attr = \"foo,bar\")]",
        rng(0, 66),
    );
    let file = InkFile {
        text_len: 113,
        tokens: vec![
            tok(TokenKind::Whitespace, "\n", 66),
            tok(TokenKind::Ident, "mod", 95),
            tok(TokenKind::Whitespace, " ", 98),
            tok(TokenKind::Ident, "my_contract", 99),
            tok(TokenKind::Whitespace, " ", 110),
            tok(TokenKind::Other, "{", 111),
            tok(TokenKind::Other, "}", 112),
        ],
        items: vec![
            item(
                ItemKind::Module,
                None,
                rng(0, 113),
                Some(rng(95, 110)),
                Some(rng(112, 113)),
                vec![merged],
            ),
        ],
    };
    assert!(file.check_wf());
    let results = actions(&file, rng(95, 95));
    assert!(results.iter().all(|a| a.label != "Flatten ink! attribute arguments."));
}

#[test]
fn extend_existing_attribute_with_argument() {
    // A bare `#[ink::contract]` on a module offers its config arguments by
    // extending the existing attribute with a parenthesized list.
    let attr = raw(&["ink", "contract"], vec![], false, "#[ink::contract]", rng(0, 16));
    let file = InkFile {
        text_len: 36,
        tokens: vec![
            tok(TokenKind::Whitespace, "\n", 16),
            tok(TokenKind::Ident, "mod", 17),
            tok(TokenKind::Whitespace, " ", 20),
            tok(TokenKind::Ident, "my_contract", 21),
            tok(TokenKind::Whitespace, " ", 32),
            tok(TokenKind::Other, "{", 33),
            tok(TokenKind::Other, "}", 34),
        ],
        items: vec![
            item(
                ItemKind::Module,
                None,
                rng(0, 35),
                Some(rng(17, 32)),
                Some(rng(34, 35)),
                vec![attr],
            ),
        ],
    };
    assert!(file.check_wf());
    let results = actions(&file, rng(17, 20));
    // `env` and `keep_attr` argument actions, plus the four entity actions.
    assert_eq!(results.len(), 6);
    assert_eq!(results[0].label, "Add ink! env attribute argument.");
    assert_eq!(results[0].edits[0].text, "(env = crate::)");
    assert_eq!(results[0].edits[0].range, rng(15, 15));
    assert_eq!(results[1].label, "Add ink! keep_attr attribute argument.");
    assert_eq!(results[1].edits[0].text, "(keep_attr = \"\")");
    assert_eq!(
        results[1].edits[0].snippet.as_deref(),
        Some("(keep_attr = ${1:\"\"})")
    );
}
