//! Scenario tests for diagnostics.

use ink_analyzer::attr::RawAttr;
use ink_analyzer::diagnostics::ink_test::{diagnostics as ink_test_diagnostics, InkTest};
use ink_analyzer::diagnostics::message::{diagnostics as message_diagnostics, Message};
use ink_analyzer::meta::{MetaName, MetaNameValue, MetaOption, MetaValue, MetaValueKind};
use ink_analyzer::text_edit::{Diagnostic, Severity};
use ink_analyzer::tree::{classify_attrs, FnData, InkFile, Item, ItemKind, VisKind};
use ink_analyzer::TextRange;

fn rng(start: usize, end: usize) -> TextRange {
    TextRange { start, end }
}

fn nm(t: &str) -> MetaName {
    MetaName { text: t.to_string(), range: rng(0, 0) }
}

fn arg(name: &str, value: Option<(MetaValueKind, &str)>) -> MetaNameValue {
    MetaNameValue {
        name: MetaOption::Present(nm(name)),
        value: match value {
            Some((k, t)) => MetaOption::Present(MetaValue {
                kind: k,
                text: t.to_string(),
                range: rng(0, t.len()),
            }),
            None => MetaOption::Missing,
        },
        range: rng(0, 0),
    }
}

fn raw(segs: &[&str], args: Vec<MetaNameValue>, has_tt: bool, text: &str, range: TextRange) -> RawAttr {
    RawAttr {
        path_segments: segs.iter().map(|s| nm(s)).collect(),
        args,
        has_token_tree: has_tt,
        text: text.to_string(),
        range,
    }
}

fn plain_fn_data() -> FnData {
    FnData {
        vis: VisKind::Inherited,
        vis_range: None,
        vis_removal_range: None,
        generics_range: None,
        const_range: None,
        async_range: None,
        unsafe_range: None,
        abi_range: None,
        variadic_range: None,
        has_self_ref_receiver: true,
        param_insert_offset: Some(33),
        has_params: false,
        ret_type_text: None,
        ret_type_range: None,
        ret_clause_range: None,
    }
}

fn message_fn_file(fn_data: FnData) -> InkFile {
    // `#[ink(message)]` on a `fn` item, with signature facts per `fn_data`.
    InkFile {
        text_len: 42,
        tokens: vec![],
        items: vec![
            Item {
                kind: ItemKind::Function,
                name: None,
                parent: None,
                range: rng(0, 42),
                decl_range: Some(rng(16, 29)),
                terminal_range: Some(rng(41, 42)),
                attrs: classify_attrs(vec![raw(
                    &["ink"],
                    vec![arg("message", None)],
                    true,
                    "#[ink(message)]",
                    rng(0, 15),
                )]),
                fn_data: Some(fn_data),
                is_trait_impl: false,
            },
        ],
    }
}

#[test]
fn generic_message_gets_one_error_with_generics_fix() {
    // `fn my_message<T>(&self) {}` annotated `#[ink(message)]` yields
    // exactly one error whose sole quick-fix deletes the generic parameter
    // list `<T>`.
    let mut fn_data = plain_fn_data();
    fn_data.generics_range = Some(rng(29, 32));
    let file = message_fn_file(fn_data);
    assert!(file.check_wf());
    let message = Message::cast(&file, 0).unwrap();
    let mut results: Vec<Diagnostic> = Vec::new();
    message_diagnostics(&mut results, &file, &message);
    assert_eq!(results.len(), 1);
    assert_eq!(results[0].severity, Severity::Error);
    assert!(results[0].message.contains("must not be generic"));
    let fixes = results[0].quickfixes.as_ref().unwrap();
    assert_eq!(fixes.len(), 1);
    assert!(fixes[0].label.contains("Remove generic"));
    assert_eq!(fixes[0].edits.len(), 1);
    assert_eq!(fixes[0].edits[0].text, "");
    assert_eq!(fixes[0].edits[0].range, rng(29, 32));
}

#[test]
fn quickfix_round_trip_resolves_diagnostic() {
    // Applying the quick-fix of the generics diagnostic to the source and
    // re-running diagnostics on the re-built snapshot does not reproduce
    // the diagnostic.
    let mut fn_data = plain_fn_data();
    fn_data.generics_range = Some(rng(29, 32));
    let file = message_fn_file(fn_data);
    let message = Message::cast(&file, 0).unwrap();
    let mut results: Vec<Diagnostic> = Vec::new();
    message_diagnostics(&mut results, &file, &message);
    assert_eq!(results.len(), 1);
    let fix_range = results[0].quickfixes.as_ref().unwrap()[0].edits[0].range;

    // Applies the deletion to the source text.
    let source = "#[ink(message)]\nfn my_message<T>(&self) {}";
    let edited = format!("{}{}", &source[..fix_range.start], &source[fix_range.end..]);
    assert_eq!(edited, "#[ink(message)]\nfn my_message(&self) {}");

    // The re-built snapshot of the edited source has no generics, so the
    // diagnostic is gone.
    let mut fixed_fn_data = plain_fn_data();
    fixed_fn_data.param_insert_offset = Some(30);
    let fixed_file = message_fn_file(fixed_fn_data);
    let fixed_message = Message::cast(&fixed_file, 0).unwrap();
    let mut fixed_results: Vec<Diagnostic> = Vec::new();
    message_diagnostics(&mut fixed_results, &fixed_file, &fixed_message);
    assert_eq!(fixed_results.len(), 0);
}

#[test]
fn invalid_callable_fails() {
    // Each callable invariant violation yields its own error with a
    // dedicated quick-fix removing the offending token or clause.
    let cases: Vec<(FnData, &str, &str, TextRange)> = vec![
        (
            {
                let mut f = plain_fn_data();
                f.generics_range = Some(rng(29, 32));
                f
            },
            "must not be generic",
            "Remove generic",
            rng(29, 32),
        ),
        (
            {
                let mut f = plain_fn_data();
                f.const_range = Some(rng(16, 22));
                f
            },
            "must not be `const`",
            "Remove `const`",
            rng(16, 22),
        ),
        (
            {
                let mut f = plain_fn_data();
                f.async_range = Some(rng(16, 22));
                f
            },
            "must not be `async`",
            "Remove `async`",
            rng(16, 22),
        ),
        (
            {
                let mut f = plain_fn_data();
                f.unsafe_range = Some(rng(16, 23));
                f
            },
            "must not be `unsafe`",
            "Remove `unsafe`",
            rng(16, 23),
        ),
        (
            {
                let mut f = plain_fn_data();
                f.abi_range = Some(rng(16, 27));
                f
            },
            "must not have an explicit ABI",
            "Remove explicit ABI",
            rng(16, 27),
        ),
        (
            {
                let mut f = plain_fn_data();
                f.variadic_range = Some(rng(37, 42));
                f
            },
            "must not be variadic",
            "un-variadic",
            rng(37, 42),
        ),
    ];
    for (fn_data, expected_message, expected_fix_label, expected_del) in cases {
        let file = message_fn_file(fn_data);
        let message = Message::cast(&file, 0).unwrap();
        let mut results: Vec<Diagnostic> = Vec::new();
        message_diagnostics(&mut results, &file, &message);
        assert_eq!(results.len(), 1);
        assert!(results[0].message.contains(expected_message));
        let fixes = results[0].quickfixes.as_ref().unwrap();
        assert_eq!(fixes.len(), 1);
        assert!(fixes[0].label.contains(expected_fix_label));
        assert_eq!(fixes[0].edits[0].text, "");
        assert_eq!(fixes[0].edits[0].range, expected_del);
    }

    // A path-qualified visibility yields two quick-fixes: change it to
    // `pub` or remove it.
    let mut fn_data = plain_fn_data();
    fn_data.vis = VisKind::Restricted;
    fn_data.vis_range = Some(rng(16, 26));
    fn_data.vis_removal_range = Some(rng(16, 27));
    let file = message_fn_file(fn_data);
    let message = Message::cast(&file, 0).unwrap();
    let mut results: Vec<Diagnostic> = Vec::new();
    message_diagnostics(&mut results, &file, &message);
    assert_eq!(results.len(), 1);
    assert!(results[0].message.contains("`pub`"));
    let fixes = results[0].quickfixes.as_ref().unwrap();
    assert_eq!(fixes.len(), 2);
    assert!(fixes[0].label.contains("`pub`"));
    assert_eq!(fixes[0].edits[0].text, "pub");
    assert_eq!(fixes[0].edits[0].range, rng(16, 26));
    assert!(fixes[1].label.contains("Remove"));
    assert_eq!(fixes[1].edits[0].text, "");
    assert_eq!(fixes[1].edits[0].range, rng(16, 27));
}

#[test]
fn non_self_ref_receiver_fails() {
    // A message function without `&self`/`&mut self` yields one error with
    // two quick-fixes offering either receiver form.
    let mut fn_data = plain_fn_data();
    fn_data.has_self_ref_receiver = false;
    fn_data.has_params = true;
    let file = message_fn_file(fn_data);
    let message = Message::cast(&file, 0).unwrap();
    let mut results: Vec<Diagnostic> = Vec::new();
    message_diagnostics(&mut results, &file, &message);
    assert_eq!(results.len(), 1);
    assert!(results[0].message.contains("self reference receiver"));
    let fixes = results[0].quickfixes.as_ref().unwrap();
    assert_eq!(fixes.len(), 2);
    assert_eq!(fixes[0].edits[0].text, "&self, ");
    assert_eq!(fixes[0].edits[0].range, rng(33, 33));
    assert_eq!(fixes[1].edits[0].text, "&mut self, ");
}

#[test]
fn self_return_type_fails() {
    // A message function returning `Self` yields one error whose quick-fix
    // deletes the whole return type clause.
    let mut fn_data = plain_fn_data();
    fn_data.ret_type_text = Some("Self".to_string());
    fn_data.ret_type_range = Some(rng(36, 40));
    fn_data.ret_clause_range = Some(rng(33, 41));
    let file = message_fn_file(fn_data);
    let message = Message::cast(&file, 0).unwrap();
    let mut results: Vec<Diagnostic> = Vec::new();
    message_diagnostics(&mut results, &file, &message);
    assert_eq!(results.len(), 1);
    assert!(results[0].message.contains("must not return `Self`"));
    assert_eq!(results[0].range, rng(36, 40));
    let fixes = results[0].quickfixes.as_ref().unwrap();
    assert_eq!(fixes.len(), 1);
    assert!(fixes[0].label.contains("Remove `Self`"));
    assert_eq!(fixes[0].edits[0].range, rng(33, 41));
}

#[test]
fn valid_message_has_no_diagnostics() {
    let file = message_fn_file(plain_fn_data());
    let message = Message::cast(&file, 0).unwrap();
    let mut results: Vec<Diagnostic> = Vec::new();
    message_diagnostics(&mut results, &file, &message);
    assert_eq!(results.len(), 0);
}

#[test]
fn fn_works() {
    // `#[ink::test]` on a plain `fn` item yields no diagnostics.
    let file = InkFile {
        text_len: 40,
        tokens: vec![],
        items: vec![
            Item {
                kind: ItemKind::Function,
                name: None,
                parent: None,
                range: rng(0, 40),
                decl_range: Some(rng(13, 30)),
                terminal_range: Some(rng(39, 40)),
                attrs: classify_attrs(vec![raw(
                    &["ink", "test"],
                    vec![],
                    false,
                    "#[ink::test]",
                    rng(0, 12),
                )]),
                fn_data: Some(plain_fn_data()),
                is_trait_impl: false,
            },
        ],
    };
    let ink_test = InkTest::cast(&file, 0).unwrap();
    let mut results: Vec<Diagnostic> = Vec::new();
    ink_test_diagnostics(&mut results, &file, &ink_test);
    assert_eq!(results.len(), 0);
}

#[test]
fn non_fn_fails() {
    // `#[ink::test]` on a non-`fn` item yields an error with a quick-fix
    // removing the attribute.
    let file = InkFile {
        text_len: 30,
        tokens: vec![],
        items: vec![
            Item {
                kind: ItemKind::Struct,
                name: None,
                parent: None,
                range: rng(0, 30),
                decl_range: Some(rng(13, 28)),
                terminal_range: Some(rng(29, 30)),
                attrs: classify_attrs(vec![raw(
                    &["ink", "test"],
                    vec![],
                    false,
                    "#[ink::test]",
                    rng(0, 12),
                )]),
                fn_data: None,
                is_trait_impl: false,
            },
        ],
    };
    assert!(file.check_wf());
    let ink_test = InkTest::cast(&file, 0).unwrap();
    let mut results: Vec<Diagnostic> = Vec::new();
    ink_test_diagnostics(&mut results, &file, &ink_test);
    assert_eq!(results.len(), 1);
    assert_eq!(results[0].severity, Severity::Error);
    let fixes = results[0].quickfixes.as_ref().unwrap();
    assert_eq!(fixes.len(), 1);
    assert!(fixes[0].label.contains("Remove `#[ink::test]`"));
    assert_eq!(fixes[0].edits[0].text, "");
    assert_eq!(fixes[0].edits[0].range, rng(0, 12));
}

#[test]
fn ink_descendants_fails() {
    // An ink! test with descendant ink! attributes yields one error per
    // descendant attribute, each with quick-fixes removing either the
    // attribute or the whole annotated item.
    let file = InkFile {
        text_len: 120,
        tokens: vec![],
        items: vec![
            Item {
                kind: ItemKind::Function,
                name: None,
                parent: None,
                range: rng(0, 120),
                decl_range: Some(rng(13, 30)),
                terminal_range: Some(rng(119, 120)),
                attrs: classify_attrs(vec![raw(
                    &["ink", "test"],
                    vec![],
                    false,
                    "#[ink::test]",
                    rng(0, 12),
                )]),
                fn_data: Some(plain_fn_data()),
                is_trait_impl: false,
            },
            Item {
                kind: ItemKind::Struct,
                name: None,
                parent: Some(0),
                range: rng(40, 110),
                decl_range: Some(rng(54, 70)),
                terminal_range: Some(rng(109, 110)),
                attrs: classify_attrs(vec![raw(
                    &["ink"],
                    vec![arg("event", None)],
                    true,
                    "#[ink(event)]",
                    rng(40, 53),
                )]),
                fn_data: None,
                is_trait_impl: false,
            },
            Item {
                kind: ItemKind::RecordField,
                name: None,
                parent: Some(1),
                range: rng(75, 105),
                decl_range: Some(rng(89, 105)),
                terminal_range: None,
                attrs: classify_attrs(vec![raw(
                    &["ink"],
                    vec![arg("topic", None)],
                    true,
                    "#[ink(topic)]",
                    rng(75, 88),
                )]),
                fn_data: None,
                is_trait_impl: false,
            },
        ],
    };
    assert!(file.check_wf());
    let ink_test = InkTest::cast(&file, 0).unwrap();
    let mut results: Vec<Diagnostic> = Vec::new();
    ink_test_diagnostics(&mut results, &file, &ink_test);
    assert_eq!(results.len(), 2);

    let fixes0 = results[0].quickfixes.as_ref().unwrap();
    assert_eq!(fixes0.len(), 2);
    assert!(fixes0[0].label.contains("Remove `#[ink(event)]`"));
    assert_eq!(fixes0[0].edits[0].range, rng(40, 53));
    assert!(fixes0[1].label.contains("Remove item"));
    assert_eq!(fixes0[1].edits[0].range, rng(40, 110));

    let fixes1 = results[1].quickfixes.as_ref().unwrap();
    assert_eq!(fixes1.len(), 2);
    assert!(fixes1[0].label.contains("Remove `#[ink(topic)]`"));
    assert_eq!(fixes1[0].edits[0].range, rng(75, 88));
    assert!(fixes1[1].label.contains("Remove item"));
    assert_eq!(fixes1[1].edits[0].range, rng(75, 105));
}

#[test]
fn unknown_attribute_kind_fails() {
    // `#[ink(xyz)]` yields an unknown-attribute error with a quick-fix
    // removing the attribute.
    let file = InkFile {
        text_len: 40,
        tokens: vec![],
        items: vec![
            Item {
                kind: ItemKind::Function,
                name: None,
                parent: None,
                range: rng(0, 40),
                decl_range: Some(rng(12, 26)),
                terminal_range: Some(rng(39, 40)),
                attrs: classify_attrs(vec![
                    raw(&["ink"], vec![arg("xyz", None)], true, "#[ink(xyz)]", rng(0, 11)),
                    raw(
                        &["ink"],
                        vec![arg("message", None)],
                        true,
                        "#[ink(message)]",
                        rng(12, 27),
                    ),
                ]),
                fn_data: Some(plain_fn_data()),
                is_trait_impl: false,
            },
        ],
    };
    let message = Message::cast(&file, 0).unwrap();
    let mut results: Vec<Diagnostic> = Vec::new();
    message_diagnostics(&mut results, &file, &message);
    assert_eq!(results.len(), 1);
    assert_eq!(results[0].message, "Unknown ink! attribute.");
    let fixes = results[0].quickfixes.as_ref().unwrap();
    assert!(fixes[0].label.contains("Remove `#[ink(xyz)]`"));
}

#[test]
fn invalid_argument_value_fails() {
    // `#[ink(message, selector="abc")]`: the selector expects an integer
    // or a wildcard, so its string value is flagged with no quick-fix.
    let file = InkFile {
        text_len: 60,
        tokens: vec![],
        items: vec![
            Item {
                kind: ItemKind::Function,
                name: None,
                parent: None,
                range: rng(0, 60),
                decl_range: Some(rng(32, 46)),
                terminal_range: Some(rng(59, 60)),
                attrs: classify_attrs(vec![raw(
                    &["ink"],
                    vec![
                        arg("message", None),
                        arg("selector", Some((MetaValueKind::Str, "\"abc\""))),
                    ],
                    true,
                    "#[ink(message, selector=\"abc\")]",
                    rng(0, 31),
                )]),
                fn_data: Some(plain_fn_data()),
                is_trait_impl: false,
            },
        ],
    };
    let message = Message::cast(&file, 0).unwrap();
    let mut results: Vec<Diagnostic> = Vec::new();
    message_diagnostics(&mut results, &file, &message);
    assert_eq!(results.len(), 1);
    assert_eq!(results[0].message, "Invalid ink! attribute argument value.");
    assert!(results[0].quickfixes.is_none());
}
