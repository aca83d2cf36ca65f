//! Tests for the offset-location and test-modification utilities.

use ink_analyzer::test_utils::{
    apply_test_modifications, offset_at, parse_offset_at, remove_whitespace, Direction,
    PartialMatchStr, TestCaseModification,
};

#[test]
fn offset_at_variants_works() {
    for (subject, pat, start_offset, end_offset, r_start_offset, r_end_offset) in [
        // subject - the subject being searched.
        // pat = substring used to find the cursor offset,
        // start_offset = the expected offset (calculated from the start of `subject`) when `subject` is searched
        //                from the beginning and the cursor is placed at the beginning of `pat`.
        // end_offset = the expected offset (calculated from the start of `subject`) when `subject` is searched
        //              from the beginning and the cursor is placed at the end of `pat`.
        // r_start_offset = the expected offset (calculated from the start of `subject`) when `subject` is searched
        //                  from the end and the cursor is placed at the beginning of `pat`.
        // r_end_offset = the expected offset (calculated from the start of `subject`) when `subject` is searched
        //                from the end and the cursor is placed at the end of `pat`.
        ("", None, Some(0), Some(0), Some(0), Some(0)),
        ("", Some(""), Some(0), Some(0), Some(0), Some(0)),
        ("", Some("a"), None, None, None, None),
        ("hello", None, Some(0), Some(5), Some(0), Some(5)),
        ("hello", Some(""), Some(0), Some(0), Some(5), Some(5)),
        ("hello", Some("e"), Some(1), Some(2), Some(1), Some(2)),
        ("hello", Some("l"), Some(2), Some(3), Some(3), Some(4)),
        ("hello", Some("lo"), Some(3), Some(5), Some(3), Some(5)),
        ("hello, world", Some("d"), Some(11), Some(12), Some(11), Some(12)),
        ("hello, world", Some("o"), Some(4), Some(5), Some(8), Some(9)),
        ("hello, world", Some(","), Some(5), Some(6), Some(5), Some(6)),
        ("hello, world", Some("o,"), Some(4), Some(6), Some(4), Some(6)),
        ("hello, world", Some(", "), Some(5), Some(7), Some(5), Some(7)),
        ("Löwe 老虎 Léopard Gepardi", Some("ö"), Some(1), Some(3), Some(1), Some(3)),
        ("Löwe 老虎 Léopard Gepardi", Some("老"), Some(6), Some(9), Some(6), Some(9)),
        ("Löwe 老虎 Léopard Gepardi", Some("é"), Some(14), Some(16), Some(14), Some(16)),
        ("Löwe 老虎 Léopard Gepardi", Some("éo"), Some(14), Some(17), Some(14), Some(17)),
        ("Löwe 老虎 Léopard Gepardi", Some("老虎"), Some(6), Some(12), Some(6), Some(12)),
        ("Löwe 老虎 Léopard Gepardi", Some("pard"), Some(17), Some(21), Some(24), Some(28)),
    ] {
        // Start offset from beginning.
        assert_eq!(
            offset_at(subject, pat, Direction::Start, Direction::Start),
            start_offset
        );
        // End offset from beginning.
        assert_eq!(
            offset_at(subject, pat, Direction::End, Direction::Start),
            end_offset
        );

        // Start offset from end.
        assert_eq!(
            offset_at(subject, pat, Direction::Start, Direction::End),
            r_start_offset
        );
        // End offset from end.
        assert_eq!(
            offset_at(subject, pat, Direction::End, Direction::End),
            r_end_offset
        );

        if pat.is_some() {
            // Parse start offset from beginning, `<-` prefix only works if `pat` is Some.
            assert_eq!(
                parse_offset_at(subject, pat.map(|substr| format!("<-{substr}")).as_deref()),
                start_offset
            );
        }
        // Parse end offset from beginning.
        assert_eq!(parse_offset_at(subject, pat), end_offset);

        if pat.is_some() {
            // Parse start offset from end, `<-` and `->` affixes only work if `pat` is Some.
            assert_eq!(
                parse_offset_at(
                    subject,
                    pat.map(|substr| format!("<-{substr}->")).as_deref()
                ),
                r_start_offset
            );

            // Parse end offset from end, `->` suffix only works if `pat` is Some.
            assert_eq!(
                parse_offset_at(subject, pat.map(|substr| format!("{substr}->")).as_deref()),
                r_end_offset
            );
        }
    }
}

#[test]
fn apply_test_modifications_works() {
    let mut code = String::from("mod my_contract { fn get() {} }");
    apply_test_modifications(
        &mut code,
        &[
            TestCaseModification {
                start_pat: Some("<-fn get"),
                end_pat: Some("() {}"),
                replacement: "fn set(&mut self) {}",
            },
            TestCaseModification {
                start_pat: Some("<-my_contract"),
                end_pat: Some("my_contract"),
                replacement: "flipper",
            },
        ],
    );
    assert_eq!(code, "mod flipper { fn set(&mut self) {} }");
}

#[test]
fn remove_whitespace_works() {
    assert_eq!(
        remove_whitespace("  a b\n\tc  ".to_string()),
        "abc".to_string()
    );
    assert_eq!(remove_whitespace(String::new()), String::new());
}

#[test]
fn partial_match_str_works() {
    // Both sides empty.
    assert!(PartialMatchStr("") == PartialMatchStr(""));
    // The right-hand side is a substring of the left-hand side.
    assert!(PartialMatchStr("Remove `#[ink::test]`.") == PartialMatchStr("Remove"));
    assert!(PartialMatchStr("hello") != PartialMatchStr("world"));
    // An empty left-hand side only matches an empty right-hand side.
    assert!(PartialMatchStr("") != PartialMatchStr("x"));
}
