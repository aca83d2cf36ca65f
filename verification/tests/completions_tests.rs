//! Scenario tests for completions.

use ink_analyzer::attr::RawAttr;
use ink_analyzer::completions::completions;
use ink_analyzer::meta::{MetaName, MetaNameValue, MetaOption, MetaValue, MetaValueKind};
use ink_analyzer::tree::{classify_attrs, InkFile, Item, ItemKind, Token, TokenKind};
use ink_analyzer::TextRange;

fn rng(start: usize, end: usize) -> TextRange {
    TextRange { start, end }
}

fn nm(t: &str) -> MetaName {
    MetaName { text: t.to_string(), range: rng(0, 0) }
}

fn arg(name: &str, value: Option<(MetaValueKind, &str)>) -> MetaNameValue {
    MetaNameValue {
        name: MetaOption::Present(nm(name)),
        value: match value {
            Some((k, t)) => MetaOption::Present(MetaValue {
                kind: k,
                text: t.to_string(),
                range: rng(0, t.len()),
            }),
            None => MetaOption::Missing,
        },
        range: rng(0, 0),
    }
}

fn raw(segs: &[&str], args: Vec<MetaNameValue>, has_tt: bool, text: &str, range: TextRange) -> RawAttr {
    RawAttr {
        path_segments: segs.iter().map(|s| nm(s)).collect(),
        args,
        has_token_tree: has_tt,
        text: text.to_string(),
        range,
    }
}

fn tok(kind: TokenKind, text: &str, start: usize) -> Token {
    Token { kind, text: text.to_string(), range: rng(start, start + text.len()) }
}

#[test]
fn macro_completions_after_bracket_on_fn_works() {
    // `#[i]` on a plain `fn` item, with the cursor right after the `i`,
    // suggests the test attribute macros with their full paths.
    // (The attribute is not an ink! attribute yet, so it stays raw.)
    let file = InkFile {
        text_len: 20,
        tokens: vec![
            tok(TokenKind::Pound, "#", 0),
            tok(TokenKind::LBrack, "[", 1),
            tok(TokenKind::Ident, "i", 2),
            tok(TokenKind::RBrack, "]", 3),
            tok(TokenKind::Whitespace, "\n", 4),
            tok(TokenKind::Ident, "fn", 5),
        ],
        items: vec![
            Item {
                kind: ItemKind::Function,
                name: None,
                parent: None,
                range: rng(0, 20),
                decl_range: Some(rng(5, 13)),
                terminal_range: Some(rng(19, 20)),
                attrs: classify_attrs(vec![raw(&["i"], vec![], false, "#[i]", rng(0, 4))]),
                fn_data: None,
                is_trait_impl: false,
            },
        ],
    };
    assert!(file.check_wf());
    let results = completions(&file, 3);
    let labels: Vec<&str> = results.iter().map(|c| c.label.as_str()).collect();
    assert_eq!(labels, vec!["ink::test", "ink_e2e::test"]);
    // The completion replaces the focused `i` token.
    assert_eq!(results[0].range, rng(2, 3));
    assert_eq!(results[0].edit.text, "ink::test");
}

#[test]
fn macro_completions_after_namespace_works() {
    // `#[ink::]` on a module, with the cursor right after the `::`,
    // suggests the matching macro name for the `ink` namespace.
    let file = InkFile {
        text_len: 30,
        tokens: vec![
            tok(TokenKind::Pound, "#", 0),
            tok(TokenKind::LBrack, "[", 1),
            tok(TokenKind::Ident, "ink", 2),
            tok(TokenKind::ColonColon, "::", 5),
            tok(TokenKind::RBrack, "]", 7),
            tok(TokenKind::Whitespace, "\n", 8),
            tok(TokenKind::Ident, "mod", 9),
        ],
        items: vec![
            Item {
                kind: ItemKind::Module,
                name: None,
                parent: None,
                range: rng(0, 30),
                decl_range: Some(rng(9, 25)),
                terminal_range: Some(rng(29, 30)),
                attrs: classify_attrs(vec![raw(&["ink"], vec![], false, "#[ink::]", rng(0, 8))]),
                fn_data: None,
                is_trait_impl: false,
            },
        ],
    };
    assert!(file.check_wf());
    let results = completions(&file, 7);
    let labels: Vec<&str> = results.iter().map(|c| c.label.as_str()).collect();
    assert_eq!(labels, vec!["::contract"]);
    assert_eq!(results[0].range, rng(5, 7));
    assert_eq!(results[0].edit.text, "::contract");
}

#[test]
fn argument_completions_after_parenthesis_works() {
    // `#[ink(` on a `fn` item, with the cursor right after the `(`,
    // suggests the function argument kinds.
    let file = InkFile {
        text_len: 25,
        tokens: vec![
            tok(TokenKind::Pound, "#", 0),
            tok(TokenKind::LBrack, "[", 1),
            tok(TokenKind::Ident, "ink", 2),
            tok(TokenKind::LParen, "(", 5),
            tok(TokenKind::Whitespace, "\n", 6),
            tok(TokenKind::Ident, "fn", 7),
        ],
        items: vec![
            Item {
                kind: ItemKind::Function,
                name: None,
                parent: None,
                range: rng(0, 25),
                decl_range: Some(rng(7, 15)),
                terminal_range: Some(rng(24, 25)),
                attrs: classify_attrs(vec![raw(&["ink"], vec![], true, "#[ink(", rng(0, 6))]),
                fn_data: None,
                is_trait_impl: false,
            },
        ],
    };
    assert!(file.check_wf());
    let results = completions(&file, 6);
    let labels: Vec<&str> = results.iter().map(|c| c.label.as_str()).collect();
    assert_eq!(
        labels,
        vec![
            "constructor",
            "default",
            "extension = 1",
            "handle_status = true",
            "message",
            "payable",
            "selector = 1",
        ]
    );
    // The insertion point is collapsed right after the `(`.
    assert_eq!(results[0].range, rng(6, 6));
}

#[test]
fn argument_completions_after_comma_works() {
    // `#[ink(event,` on a struct suggests the `anonymous` sibling, with a
    // separating space after the comma.
    let file = InkFile {
        text_len: 30,
        tokens: vec![
            tok(TokenKind::Pound, "#", 0),
            tok(TokenKind::LBrack, "[", 1),
            tok(TokenKind::Ident, "ink", 2),
            tok(TokenKind::LParen, "(", 5),
            tok(TokenKind::Ident, "event", 6),
            tok(TokenKind::Comma, ",", 11),
            tok(TokenKind::Whitespace, "\n", 12),
            tok(TokenKind::Ident, "struct", 13),
        ],
        items: vec![
            Item {
                kind: ItemKind::Struct,
                name: None,
                parent: None,
                range: rng(0, 30),
                decl_range: Some(rng(13, 25)),
                terminal_range: Some(rng(29, 30)),
                attrs: classify_attrs(vec![raw(
                    &["ink"],
                    vec![arg("event", None)],
                    true,
                    "#[ink(event,",
                    rng(0, 12),
                )]),
                fn_data: None,
                is_trait_impl: false,
            },
        ],
    };
    assert!(file.check_wf());
    let results = completions(&file, 12);
    assert_eq!(results.len(), 1);
    assert_eq!(results[0].label, "anonymous");
    assert_eq!(results[0].edit.text, " anonymous");
    assert_eq!(results[0].range, rng(12, 12));
}

#[test]
fn argument_completions_filtered_by_prefix_works() {
    // `#[ink(con` on a `fn` item, with the cursor after the prefix,
    // suggests only the kinds whose name starts with the prefix.
    let file = InkFile {
        text_len: 25,
        tokens: vec![
            tok(TokenKind::Pound, "#", 0),
            tok(TokenKind::LBrack, "[", 1),
            tok(TokenKind::Ident, "ink", 2),
            tok(TokenKind::LParen, "(", 5),
            tok(TokenKind::Ident, "con", 6),
            tok(TokenKind::Whitespace, "\n", 9),
            tok(TokenKind::Ident, "fn", 10),
        ],
        items: vec![
            Item {
                kind: ItemKind::Function,
                name: None,
                parent: None,
                range: rng(0, 25),
                decl_range: Some(rng(10, 18)),
                terminal_range: Some(rng(24, 25)),
                attrs: classify_attrs(vec![raw(
                    &["ink"],
                    vec![arg("con", None)],
                    true,
                    "#[ink(con",
                    rng(0, 9),
                )]),
                fn_data: None,
                is_trait_impl: false,
            },
        ],
    };
    assert!(file.check_wf());
    let results = completions(&file, 9);
    let labels: Vec<&str> = results.iter().map(|c| c.label.as_str()).collect();
    assert_eq!(labels, vec!["constructor"]);
    assert_eq!(results[0].range, rng(6, 9));
}
