//! Utilities for locating offsets in test sources by substring patterns,
//! applying scripted modifications, and describing expected results.

use vstd::prelude::*;
use vstd::string::StrSliceExecFns;

use crate::strutil::{
    match_at, spec_contains, spec_strip_whitespace, str_concat3, str_contains, strip_whitespace,
};

verus! {

/// An origin or placement direction.
#[derive(Debug, Clone, Copy, PartialEq, Eq, Structural)]
pub enum Direction {
    Start,
    End,
}

/// Whether `p` occurs in `s` at character position `i`.
pub open spec fn spec_match_at(s: Seq<char>, p: Seq<char>, i: int) -> bool {
    0 <= i <= s.len() - p.len() && p == s.subrange(i, i + p.len())
}

/// The smallest match position of `p` in `s` that is at least `k`.
pub open spec fn spec_first_match(s: Seq<char>, p: Seq<char>, k: int) -> Option<int>
    decreases (if k <= s.len() - p.len() {
        s.len() - p.len() - k + 1
    } else {
        0
    }),
{
    if k > s.len() - p.len() || k < 0 {
        Option::None
    } else if spec_match_at(s, p, k) {
        Some(k)
    } else {
        spec_first_match(s, p, k + 1)
    }
}

/// The largest match position of `p` in `s` that is at most `k`.
pub open spec fn spec_last_match(s: Seq<char>, p: Seq<char>, k: int) -> Option<int>
    decreases (if k >= 0 {
        k + 1
    } else {
        0
    }),
{
    if k < 0 || k > s.len() - p.len() {
        Option::None
    } else if spec_match_at(s, p, k) {
        Some(k)
    } else {
        spec_last_match(s, p, k - 1)
    }
}

/// A found first match lies between `k` and the last possible position.
pub proof fn lemma_first_match_props(s: Seq<char>, p: Seq<char>, k: int)
    ensures
        spec_first_match(s, p, k) matches Some(i) ==> k <= i <= s.len() - p.len()
            && spec_match_at(s, p, i),
    decreases (if k <= s.len() - p.len() {
        s.len() - p.len() - k + 1
    } else {
        0
    }),
{
    if k > s.len() - p.len() || k < 0 {
    } else if spec_match_at(s, p, k) {
    } else {
        lemma_first_match_props(s, p, k + 1);
    }
}

/// A found last match lies between zero and `k`.
pub proof fn lemma_last_match_props(s: Seq<char>, p: Seq<char>, k: int)
    ensures
        spec_last_match(s, p, k) matches Some(i) ==> 0 <= i <= s.len() - p.len()
            && spec_match_at(s, p, i),
    decreases (if k >= 0 {
        k + 1
    } else {
        0
    }),
{
    if k < 0 || k > s.len() - p.len() {
    } else if spec_match_at(s, p, k) {
    } else {
        lemma_last_match_props(s, p, k - 1);
    }
}

/// Finds the first character position where `p` matches in `s`.
fn find_first(s: &str, p: &str) -> (r: Option<usize>)
    ensures
        match r {
            Some(i) => spec_first_match(s@, p@, 0) == Some(i as int),
            None => spec_first_match(s@, p@, 0) is None,
        },
{
    let sn = s.unicode_len();
    let pn = p.unicode_len();
    if pn > sn {
        return None;
    }
    if pn == 0 {
        proof {
            assert(p@ =~= s@.subrange(0, 0));
            assert(spec_match_at(s@, p@, 0));
        }
        return Some(0);
    }
    let mut i: usize = 0;
    while i <= sn - pn
        invariant
            0 <= i <= sn - pn + 1,
            pn <= sn,
            sn == s@.len(),
            pn == p@.len(),
            spec_first_match(s@, p@, 0) == spec_first_match(s@, p@, i as int),
        decreases sn - pn + 1 - i,
    {
        if match_at(s, p, i) {
            return Some(i);
        }
        i += 1;
    }
    None
}

/// Finds the last character position where `p` matches in `s`.
fn find_last(s: &str, p: &str) -> (r: Option<usize>)
    ensures
        match r {
            Some(i) => spec_last_match(s@, p@, s@.len() - p@.len()) == Some(i as int),
            None => spec_last_match(s@, p@, s@.len() - p@.len()) is None,
        },
{
    let sn = s.unicode_len();
    let pn = p.unicode_len();
    if pn > sn {
        return None;
    }
    if pn == 0 {
        proof {
            assert(p@ =~= s@.subrange(s@.len() as int, s@.len() as int));
            assert(spec_match_at(s@, p@, s@.len() as int));
        }
        return Some(sn);
    }
    let mut i: usize = sn - pn + 1;
    while i > 0
        invariant
            0 <= i <= sn - pn + 1,
            pn <= sn,
            sn == s@.len(),
            pn == p@.len(),
            spec_last_match(s@, p@, s@.len() - p@.len()) == spec_last_match(s@, p@, i - 1),
        decreases i,
    {
        i -= 1;
        if match_at(s, p, i) {
            return Some(i);
        }
    }
    None
}

/// The character index selected by `offset_at`: for no pattern, the start or
/// the end of the subject; for a pattern, the first (or, searching from the
/// end, the last) match position, with the pattern's length added when the
/// offset is to be placed at the end of the match.
pub open spec fn spec_offset_at_char_idx(
    s: Seq<char>,
    pat: Option<Seq<char>>,
    position: Direction,
    origin: Direction,
) -> Option<int> {
    match pat {
        Some(p) => {
            let found = match origin {
                Direction::Start => spec_first_match(s, p, 0),
                Direction::End => spec_last_match(s, p, s.len() - p.len()),
            };
            match found {
                Some(i) => Some(
                    i + (match position {
                        Direction::Start => 0int,
                        Direction::End => p.len() as int,
                    }),
                ),
                Option::None => Option::None,
            }
        },
        Option::None => match position {
            Direction::Start => Some(0int),
            Direction::End => Some(s.len() as int),
        },
    }
}

/// The view of an optional string slice.
pub open spec fn spec_view_opt(pat: Option<&str>) -> Option<Seq<char>> {
    match pat {
        Some(p) => Some(p@),
        Option::None => Option::None,
    }
}

/// Finds the character index selected by the given pattern and directions.
fn char_index_at(subject: &str, pat: Option<&str>, position: Direction, origin: Direction) -> (r:
    Option<usize>)
    ensures
        match r {
            Some(i) => i <= subject@.len() && spec_offset_at_char_idx(
                subject@,
                spec_view_opt(pat),
                position,
                origin,
            ) == Some(i as int),
            None => spec_offset_at_char_idx(subject@, spec_view_opt(pat), position, origin)
                is None,
        },
{
    match pat {
        Some(substr) => {
            let sn = subject.unicode_len();
            proof {
                lemma_first_match_props(subject@, substr@, 0);
                lemma_last_match_props(subject@, substr@, subject@.len() - substr@.len());
            }
            let found = match origin {
                Direction::Start => find_first(subject, substr),
                Direction::End => find_last(subject, substr),
            };
            match found {
                Some(i) => match position {
                    Direction::Start => Some(i),
                    Direction::End => Some(i + substr.unicode_len()),
                },
                None => None,
            }
        },
        None => match position {
            Direction::Start => Some(0),
            Direction::End => Some(subject.unicode_len()),
        },
    }
}

/// Returns the byte offset of `pat` in `subject` using `position` (`Start`
/// or `End`) to determine the offset placement around the matched substring
/// and `origin` (`Start` or `End`) to determine the search origin (offsets
/// are always measured from the beginning of `subject`).
pub fn offset_at(subject: &str, pat: Option<&str>, position: Direction, origin: Direction) -> (r:
    Option<usize>)
    ensures
        match spec_offset_at_char_idx(subject@, spec_view_opt(pat), position, origin) {
            Some(ci) => r matches Some(o) && o == vstd::utf8::encode_utf8(
                subject@.take(ci),
            ).len() as usize,
            Option::None => r is None,
        },
{
    match char_index_at(subject, pat, position, origin) {
        Some(ci) => {
            let prefix = subject.substring_char(0, ci);
            proof {
                assert(prefix@ =~= subject@.take(ci as int));
            }
            Some(prefix.len())
        },
        None => None,
    }
}

/// The pattern that remains after the `<-` and `->` affixes are parsed off,
/// mirroring how the affixes interact: the prefix is stripped first, and the
/// suffix is then stripped from the already prefix-stripped pattern (so a
/// pattern that ends in `->` only because of its prefix yields no pattern).
pub open spec fn spec_parsed_pat(p: Seq<char>) -> Option<Seq<char>> {
    let after_pre = if spec_has_arrow_prefix(p) {
        p.skip(2)
    } else {
        p
    };
    if spec_has_arrow_suffix(p) {
        if spec_has_arrow_suffix(after_pre) {
            Some(after_pre.take(after_pre.len() - 2))
        } else {
            Option::None
        }
    } else {
        Some(after_pre)
    }
}

/// Whether the pattern starts with `<-`.
pub open spec fn spec_has_arrow_prefix(p: Seq<char>) -> bool {
    p.len() >= 2 && p[0] == '<' && p[1] == '-'
}

/// Whether the pattern ends with `->`.
pub open spec fn spec_has_arrow_suffix(p: Seq<char>) -> bool {
    p.len() >= 2 && p[p.len() - 2] == '-' && p[p.len() - 1] == '>'
}

/// Decides whether the pattern starts with `<-`.
fn has_arrow_prefix(p: &str) -> (r: bool)
    ensures
        r == spec_has_arrow_prefix(p@),
{
    let n = p.unicode_len();
    n >= 2 && p.get_char(0) == '<' && p.get_char(1) == '-'
}

/// Decides whether the pattern ends with `->`.
fn has_arrow_suffix(p: &str) -> (r: bool)
    ensures
        r == spec_has_arrow_suffix(p@),
{
    let n = p.unicode_len();
    n >= 2 && p.get_char(n - 2) == '-' && p.get_char(n - 1) == '>'
}

/// The offset placement a pattern selects: the start of the match when the
/// pattern carries a `<-` prefix, its end otherwise.
pub open spec fn spec_pat_position(p: Seq<char>) -> Direction {
    if spec_has_arrow_prefix(p) {
        Direction::Start
    } else {
        Direction::End
    }
}

/// The search origin a pattern selects: the end of the subject when the
/// pattern carries a `->` suffix, its start otherwise.
pub open spec fn spec_pat_origin(p: Seq<char>) -> Direction {
    if spec_has_arrow_suffix(p) {
        Direction::End
    } else {
        Direction::Start
    }
}

/// The character index that `parse_offset_at` resolves for a subject and an
/// optional pattern.
pub open spec fn spec_parse_offset_char_idx(s: Seq<char>, pat: Option<Seq<char>>) -> Option<int> {
    match pat {
        Some(p) => spec_offset_at_char_idx(
            s,
            spec_parsed_pat(p),
            spec_pat_position(p),
            spec_pat_origin(p),
        ),
        Option::None => spec_offset_at_char_idx(
            s,
            Option::None,
            Direction::End,
            Direction::Start,
        ),
    }
}

/// Returns the byte offset of `pat` in `subject`.
///
/// The offset is placed at the end of `pat` in `subject` by default, unless
/// `pat` is `Some` substring that starts with `<-`, in which case the offset
/// is placed at the beginning of the substring.
///
/// Additionally, `pat` is searched from the beginning of `subject` by
/// default, unless `pat` is `Some` substring that ends with `->`, in which
/// case `pat` is searched from the end of `subject` (offsets are still
/// calculated from the beginning of `subject` even in this case).
pub fn parse_offset_at(subject: &str, pat: Option<&str>) -> (r: Option<usize>)
    ensures
        match spec_parse_offset_char_idx(subject@, spec_view_opt(pat)) {
            Some(ci) => r matches Some(o) && o == vstd::utf8::encode_utf8(
                subject@.take(ci),
            ).len() as usize,
            Option::None => r is None,
        },
{
    match pat {
        Some(substr) => {
            let has_pre = has_arrow_prefix(substr);
            let has_suf = has_arrow_suffix(substr);
            let n = substr.unicode_len();
            let after_pre: &str = if has_pre {
                substr.substring_char(2, n)
            } else {
                substr
            };
            proof {
                if has_pre {
                    assert(after_pre@ =~= substr@.skip(2));
                }
            }
            let position = if has_pre {
                Direction::Start
            } else {
                Direction::End
            };
            let origin = if has_suf {
                Direction::End
            } else {
                Direction::Start
            };
            if has_suf {
                let m = after_pre.unicode_len();
                if has_arrow_suffix(after_pre) {
                    let core: &str = after_pre.substring_char(0, m - 2);
                    proof {
                        assert(core@ =~= after_pre@.take(after_pre@.len() - 2));
                    }
                    offset_at(subject, Some(core), position, origin)
                } else {
                    offset_at(subject, None, position, origin)
                }
            } else {
                offset_at(subject, Some(after_pre), position, origin)
            }
        },
        None => offset_at(subject, None, Direction::End, Direction::Start),
    }
}

/// Removes whitespace from a string (e.g. to simplify text comparisons by
/// ignoring whitespace formatting).
pub fn remove_whitespace(text: String) -> (r: String)
    ensures
        r@ == spec_strip_whitespace(text@),
{
    strip_whitespace(text.as_str())
}

/// Describes a modification to perform on the original source code.
#[derive(Debug, Clone, Copy)]
pub struct TestCaseModification {
    /// Substring used to find the start offset for the snippet to replace.
    pub start_pat: Option<&'static str>,
    /// Substring used to find the end offset for the snippet to replace.
    pub end_pat: Option<&'static str>,
    /// Replacement snippet inserted between the two offsets.
    pub replacement: &'static str,
}

/// The character bounds one modification resolves to, when both of its
/// patterns resolve and they are properly ordered.
pub open spec fn spec_mod_char_bounds(s: Seq<char>, m: TestCaseModification) -> Option<(int, int)> {
    let a = spec_parse_offset_char_idx(s, spec_view_opt(m.start_pat));
    let b = spec_parse_offset_char_idx(s, spec_view_opt(m.end_pat));
    match (a, b) {
        (Some(x), Some(y)) => if 0 <= x <= y <= s.len() {
            Some((x, y))
        } else {
            Option::None
        },
        _ => Option::None,
    }
}

/// The result of applying the modifications left to right; `None` when some
/// step's patterns do not resolve.
pub open spec fn spec_apply_mods(s: Seq<char>, mods: Seq<TestCaseModification>) -> Option<
    Seq<char>,
>
    decreases mods.len(),
{
    if mods.len() == 0 {
        Some(s)
    } else {
        match spec_mod_char_bounds(s, mods[0]) {
            Some((a, b)) => spec_apply_mods(
                s.subrange(0, a) + mods[0].replacement@ + s.subrange(b, s.len() as int),
                mods.drop_first(),
            ),
            Option::None => Option::None,
        }
    }
}

/// Applies the test case modifications to the source code, left to right:
/// each step replaces the text between its two resolved offsets with its
/// replacement snippet.
pub fn apply_test_modifications(source_code: &mut String, modifications: &[TestCaseModification])
    requires
        spec_apply_mods(old(source_code)@, modifications@) is Some,
    ensures
        Some(final(source_code)@) == spec_apply_mods(old(source_code)@, modifications@),
{
    let mut k: usize = 0;
    proof {
        assert(modifications@.skip(0) =~= modifications@);
    }
    while k < modifications.len()
        invariant
            0 <= k <= modifications@.len(),
            spec_apply_mods(source_code@, modifications@.skip(k as int)) == spec_apply_mods(
                old(source_code)@,
                modifications@,
            ),
            spec_apply_mods(old(source_code)@, modifications@) is Some,
        decreases modifications@.len() - k,
    {
        proof {
            assert(modifications@.skip(k as int)[0] == modifications@[k as int]);
            assert(modifications@.skip(k as int).drop_first() =~= modifications@.skip(k + 1));
        }
        let m = modifications[k];
        let start_ci = char_index_at_parsed(source_code.as_str(), m.start_pat);
        let end_ci = char_index_at_parsed(source_code.as_str(), m.end_pat);
        let a = start_ci.unwrap();
        let b = end_ci.unwrap();
        let n = source_code.as_str().unicode_len();
        assert(0 <= a <= b <= n);
        let head = source_code.as_str().substring_char(0, a);
        let tail = source_code.as_str().substring_char(b, n);
        let next = str_concat3(head, m.replacement, tail);
        proof {
            assert(next@ =~= source_code@.subrange(0, a as int) + m.replacement@
                + source_code@.subrange(b as int, source_code@.len() as int));
        }
        *source_code = next;
        k += 1;
    }
    proof {
        assert(modifications@.skip(modifications@.len() as int) =~= Seq::<
            TestCaseModification,
        >::empty());
    }
}

/// Resolves the character index for one pattern, as `parse_offset_at` does.
fn char_index_at_parsed(subject: &str, pat: Option<&str>) -> (r: Option<usize>)
    ensures
        match r {
            Some(i) => i <= subject@.len() && spec_parse_offset_char_idx(
                subject@,
                spec_view_opt(pat),
            ) == Some(i as int),
            None => spec_parse_offset_char_idx(subject@, spec_view_opt(pat)) is None,
        },
{
    match pat {
        Some(substr) => {
            let has_pre = has_arrow_prefix(substr);
            let has_suf = has_arrow_suffix(substr);
            let n = substr.unicode_len();
            let after_pre: &str = if has_pre {
                substr.substring_char(2, n)
            } else {
                substr
            };
            proof {
                if has_pre {
                    assert(after_pre@ =~= substr@.skip(2));
                }
            }
            let position = if has_pre {
                Direction::Start
            } else {
                Direction::End
            };
            let origin = if has_suf {
                Direction::End
            } else {
                Direction::Start
            };
            if has_suf {
                let m = after_pre.unicode_len();
                if has_arrow_suffix(after_pre) {
                    let core: &str = after_pre.substring_char(0, m - 2);
                    proof {
                        assert(core@ =~= after_pre@.take(after_pre@.len() - 2));
                    }
                    char_index_at(subject, Some(core), position, origin)
                } else {
                    char_index_at(subject, None, position, origin)
                }
            } else {
                char_index_at(subject, Some(after_pre), position, origin)
            }
        },
        None => char_index_at(subject, None, Direction::End, Direction::Start),
    }
}

/// A custom string type used in test comparisons where only a partial match
/// is wanted (i.e. either both strings are empty or the right-hand side is a
/// substring of the left-hand side).
#[derive(Debug, Clone, Eq)]
pub struct PartialMatchStr<'a>(pub &'a str);

impl<'a> PartialEq for PartialMatchStr<'a> {
    fn eq(&self, other: &Self) -> (r: bool) {
        let n = self.0.unicode_len();
        if n == 0 {
            other.0.unicode_len() == 0
        } else {
            str_contains(self.0, other.0)
        }
    }
}

impl<'a> vstd::std_specs::cmp::PartialEqSpecImpl for PartialMatchStr<'a> {
    open spec fn obeys_eq_spec() -> bool {
        true
    }

    open spec fn eq_spec(&self, other: &Self) -> bool {
        if self.0@.len() == 0 {
            other.0@.len() == 0
        } else {
            spec_contains(self.0@, other.0@)
        }
    }
}

/// Describes a group of tests to run on smart contract code from one source.
#[derive(Debug)]
pub struct TestGroup {
    /// Location of the smart contract code.
    pub source: &'static str,
    /// List of test cases.
    pub test_cases: Vec<TestCase>,
}

/// Describes a single test case in a [`TestGroup`].
#[derive(Debug)]
pub struct TestCase {
    /// Modifications to perform on the original source before the test.
    pub modifications: Option<Vec<TestCaseModification>>,
    /// Parameters used by the test case.
    pub params: Option<TestCaseParams>,
    /// Expected results for the test case.
    pub results: TestCaseResults,
}

/// Variants for [`TestCase`] parameters.
#[derive(Debug)]
pub enum TestCaseParams {
    Action(TestParamsOffsetOnly),
    Completion(TestParamsOffsetOnly),
    Hover(TestParamsRangeOnly),
    InlayHints(Option<TestParamsRangeOnly>),
    SignatureHelp(TestParamsOffsetOnly),
}

/// Variants for [`TestCase`] results.
#[derive(Debug)]
pub enum TestCaseResults {
    Action(Vec<TestResultAction>),
    Completion(Vec<TestResultTextRange>),
    /// Expected number of diagnostics, with the expected quick-fix edits for
    /// each diagnostic.
    Diagnostic { n: usize, quickfixes: Vec<Vec<Vec<TestResultTextRange>>> },
    Hover(Option<TestResultTextRange>),
    InlayHints(Vec<TestResultTextOffsetRange>),
    SignatureHelp(Vec<TestResultSignatureHelp>),
}

/// Test parameters for offset-based tests.
#[derive(Debug)]
pub struct TestParamsOffsetOnly {
    /// Substring used to find the cursor offset for the test case.
    pub pat: Option<&'static str>,
}

/// Test parameters for text-range based tests.
#[derive(Debug)]
pub struct TestParamsRangeOnly {
    /// Substring used to find the start offset of the focus range.
    pub start_pat: Option<&'static str>,
    /// Substring used to find the end offset of the focus range.
    pub end_pat: Option<&'static str>,
}

/// Describes an expected text and range result.
#[derive(Debug)]
pub struct TestResultTextRange {
    /// Expected text.
    pub text: &'static str,
    /// Substring used to find the start offset of the expected result.
    pub start_pat: Option<&'static str>,
    /// Substring used to find the end offset of the expected result.
    pub end_pat: Option<&'static str>,
}

/// Describes an expected text, offset and range result.
#[derive(Debug)]
pub struct TestResultTextOffsetRange {
    /// Expected text.
    pub text: &'static str,
    /// Substring used to find the offset of the expected result.
    pub pos_pat: Option<&'static str>,
    /// Substring used to find the start offset of the expected result.
    pub range_start_pat: Option<&'static str>,
    /// Substring used to find the end offset of the expected result.
    pub range_end_pat: Option<&'static str>,
}

/// Describes an expected action label and its text edits.
#[derive(Debug)]
pub struct TestResultAction {
    /// Expected label.
    pub label: &'static str,
    /// Expected edits.
    pub edits: Vec<TestResultTextRange>,
}

/// Describes an expected signature help.
#[derive(Debug)]
pub struct TestResultSignatureHelp {
    /// Expected label.
    pub label: &'static str,
    /// Substring used to find the start offset of the expected result.
    pub start_pat: Option<&'static str>,
    /// Substring used to find the end offset of the expected result.
    pub end_pat: Option<&'static str>,
    /// Expected parameters.
    pub params: Vec<TestResultSignatureParam>,
    /// Expected active parameter.
    pub active_param: Option<usize>,
}

/// Describes an expected signature parameter.
#[derive(Debug)]
pub struct TestResultSignatureParam {
    /// Substring used to find the start offset of the expected result.
    pub start_pat: Option<&'static str>,
    /// Substring used to find the end offset of the expected result.
    pub end_pat: Option<&'static str>,
}

} // verus!
