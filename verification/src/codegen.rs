//! Code stubs/snippets for creating ink! project files.

use vstd::prelude::*;
use vstd::string::StrSliceExecFns;

use crate::strutil::{push_char, str_concat, str_concat3, str_concat5};

verus! {

/// Code stubs/snippets for creating a file in an ink! project
/// (e.g. `lib.rs` or `Cargo.toml` for an ink! contract).
#[derive(Debug)]
pub struct ProjectFile {
    /// A plain text code stub.
    pub plain: String,
    /// A snippet (i.e. with tab stops and/or placeholders).
    pub snippet: Option<String>,
}

/// Code stubs/snippets for creating an ink! project
/// (i.e. code stubs/snippets for `lib.rs` and `Cargo.toml`).
#[derive(Debug)]
pub struct Project {
    /// The `lib.rs` content.
    pub lib: ProjectFile,
    /// The `Cargo.toml` content.
    pub cargo: ProjectFile,
}

/// An ink! project error.
#[derive(Debug, Clone, Copy, PartialEq, Eq, Structural)]
pub enum Error {
    /// Invalid package name: empty, or holding a character that is neither
    /// alphanumeric nor `-` nor `_`.
    PackageName,
    /// Invalid contract name: does not begin with an alphabetic character.
    ContractName,
}

/// What `char::is_alphanumeric` returns for a character.
pub uninterp spec fn char_alphanumeric(c: char) -> bool;

/// What `char::is_alphabetic` returns for a character.
pub uninterp spec fn char_alphabetic(c: char) -> bool;

/// Relies on `char::is_alphanumeric`: true exactly for the Unicode letter and
/// number categories, a function of the character alone; on the ASCII range
/// these are the letters and the decimal digits, and ASCII punctuation,
/// spacing and control characters are excluded.
#[verifier::external_body]
fn is_alphanumeric_char(c: char) -> (r: bool)
    ensures
        r == char_alphanumeric(c),
        ('a' <= c && c <= 'z') || ('A' <= c && c <= 'Z') || ('0' <= c && c <= '9') ==> r,
        (c as u32) < 128 && !(('a' <= c && c <= 'z') || ('A' <= c && c <= 'Z') || ('0' <= c && c
            <= '9')) ==> !r,
{
    c.is_alphanumeric()
}

/// Relies on `char::is_alphabetic`: true exactly for the Unicode letter
/// categories, a function of the character alone; on the ASCII range these
/// are the letters, and ASCII digits, punctuation, spacing and control
/// characters are excluded.
#[verifier::external_body]
fn is_alphabetic_char(c: char) -> (r: bool)
    ensures
        r == char_alphabetic(c),
        ('a' <= c && c <= 'z') || ('A' <= c && c <= 'Z') ==> r,
        (c as u32) < 128 && !(('a' <= c && c <= 'z') || ('A' <= c && c <= 'Z')) ==> !r,
{
    c.is_alphabetic()
}

/// A valid Rust package name: non-empty, all characters alphanumeric, `-`
/// or `_`.
pub open spec fn spec_valid_package_name(s: Seq<char>) -> bool {
    s.len() > 0 && forall|i: int|
        0 <= i < s.len() ==> char_alphanumeric(#[trigger] s[i]) || s[i] == '-' || s[i] == '_'
}

/// A valid ink! contract name: a valid package name that additionally begins
/// with an alphabetic character.
pub open spec fn spec_valid_contract_name(s: Seq<char>) -> bool {
    spec_valid_package_name(s) && char_alphabetic(s[0])
}

/// The ASCII upper-case mapping of one character (other characters are kept).
pub open spec fn spec_to_upper(c: char) -> char {
    if 'a' <= c && c <= 'z' {
        (((c as u8) - 32) as char)
    } else {
        c
    }
}

/// `s` converted to Pascal case: `_` and `-` separate segments, and each
/// segment's first character is upper-cased (ASCII only).
pub open spec fn spec_pascal_case(s: Seq<char>, boundary: bool) -> Seq<char>
    decreases s.len(),
{
    if s.len() == 0 {
        Seq::empty()
    } else if s[0] == '_' || s[0] == '-' {
        spec_pascal_case(s.drop_first(), true)
    } else {
        seq![
            if boundary {
                spec_to_upper(s[0])
            } else {
                s[0]
            },
        ] + spec_pascal_case(s.drop_first(), false)
    }
}

/// Converts a module name to a Pascal-case type name.
fn pascal_case(s: &str) -> (r: String)
    ensures
        r@ == spec_pascal_case(s@, true),
{
    let n = s.unicode_len();
    let mut out = String::new();
    let mut boundary = true;
    let mut i: usize = 0;
    proof {
        assert(s@.skip(0) =~= s@);
        assert(out@ + spec_pascal_case(s@, true) =~= spec_pascal_case(s@, true));
    }
    while i < n
        invariant
            0 <= i <= n,
            n == s@.len(),
            spec_pascal_case(s@, true) == out@ + spec_pascal_case(s@.skip(i as int), boundary),
        decreases n - i,
    {
        let ghost out0 = out@;
        let ghost b0 = boundary;
        proof {
            assert(s@.skip(i as int).drop_first() =~= s@.skip(i + 1));
            assert(s@.skip(i as int)[0] == s@[i as int]);
        }
        let c = s.get_char(i);
        if c == '_' || c == '-' {
            boundary = true;
            proof {
                assert(spec_pascal_case(s@.skip(i as int), b0) == spec_pascal_case(
                    s@.skip(i + 1),
                    true,
                ));
            }
        } else {
            let mapped = if boundary && 'a' <= c && c <= 'z' {
                (((c as u8) - 32) as char)
            } else {
                c
            };
            push_char(&mut out, mapped);
            boundary = false;
            proof {
                assert(mapped == (if b0 {
                    spec_to_upper(s@[i as int])
                } else {
                    s@[i as int]
                }));
                assert(spec_pascal_case(s@.skip(i as int), b0) == seq![mapped]
                    + spec_pascal_case(s@.skip(i + 1), false));
                assert(out@ =~= out0 + seq![mapped]);
                assert(out0 + (seq![mapped] + spec_pascal_case(s@.skip(i + 1), false)) =~= (out0
                    + seq![mapped]) + spec_pascal_case(s@.skip(i + 1), false));
            }
        }
        i += 1;
    }
    proof {
        assert(s@.skip(n as int) =~= Seq::<char>::empty());
        assert(out@ =~= out@ + spec_pascal_case(s@.skip(n as int), boundary));
    }
    out
}

/// `s` with every `-` replaced by `_`.
pub open spec fn spec_dash_to_underscore(s: Seq<char>) -> Seq<char> {
    s.map_values(
        |c: char|
            if c == '-' {
                '_'
            } else {
                c
            },
    )
}

/// Replaces every `-` with `_`.
fn dash_to_underscore(s: &str) -> (r: String)
    ensures
        r@ == spec_dash_to_underscore(s@),
{
    let n = s.unicode_len();
    let mut out = String::new();
    let mut i: usize = 0;
    while i < n
        invariant
            0 <= i <= n,
            n == s@.len(),
            out@ =~= spec_dash_to_underscore(s@.take(i as int)),
        decreases n - i,
    {
        let c = s.get_char(i);
        if c == '-' {
            push_char(&mut out, '_');
        } else {
            push_char(&mut out, c);
        }
        proof {
            assert(out@ =~= spec_dash_to_underscore(s@.take(i + 1)));
        }
        i += 1;
    }
    proof {
        assert(s@.take(n as int) =~= s@);
    }
    out
}

/// Returns code stubs/snippets for creating a new ink! project given a name.
///
/// The name must be a valid Rust package name (non-empty, alphanumeric, `-`
/// or `_` characters only) and a valid ink! contract name (beginning with an
/// alphabetic character); otherwise the matching error is returned.  On
/// success, the `lib.rs` stub is the contract template with the module named
/// after the package (`-` replaced by `_`) and the storage type named with
/// its Pascal case form, and the `Cargo.toml` stub carries the package name.
pub fn new_project(name: String) -> (r: Result<Project, Error>)
    ensures
        r matches Err(e) ==> (e == Error::PackageName <==> !spec_valid_package_name(name@)),
        (r matches Err(e) && e == Error::ContractName) <==> (spec_valid_package_name(name@)
            && !char_alphabetic(name@[0])),
        (r is Ok) <==> spec_valid_contract_name(name@),
        r matches Ok(p) ==> {
            &&& p.lib.plain@ == lib_head()
                + spec_dash_to_underscore(name@) + lib_mid_storage() + spec_pascal_case(
                spec_dash_to_underscore(name@),
                true,
            ) + lib_mid_fields() + spec_pascal_case(spec_dash_to_underscore(name@), true)
                + lib_tail()
            &&& p.lib.snippet matches Some(s) && s@ == lib_head() + spec_dash_to_underscore(name@)
                + lib_mid_storage() + spec_pascal_case(spec_dash_to_underscore(name@), true)
                + lib_mid_fields_snippet() + spec_pascal_case(spec_dash_to_underscore(name@), true)
                + lib_tail()
            &&& p.cargo.plain@ == cargo_head() + name@ + cargo_tail()
            &&& p.cargo.snippet matches Some(s) && s@ == cargo_head() + name@
                + cargo_tail_snippet()
        },
{
    // Validates that the name is a valid Rust package name.
    let n = name.as_str().unicode_len();
    if n == 0 {
        return Err(Error::PackageName);
    }
    let mut i: usize = 0;
    while i < n
        invariant
            0 <= i <= n,
            n == name@.len(),
            forall|j: int|
                0 <= j < i ==> char_alphanumeric(#[trigger] name@[j]) || name@[j] == '-'
                    || name@[j] == '_',
        decreases n - i,
    {
        let c = name.as_str().get_char(i);
        if !(is_alphanumeric_char(c) || c == '_' || c == '-') {
            return Err(Error::PackageName);
        }
        i += 1;
    }

    // Validates that the name is a valid ink! contract name (i.e. it must
    // additionally begin with an alphabetic character).
    if !is_alphabetic_char(name.as_str().get_char(0)) {
        return Err(Error::ContractName);
    }

    // Generates `mod` and storage `struct` names for the contract.
    let module_name = dash_to_underscore(name.as_str());
    let struct_name = pascal_case(module_name.as_str());

    let lib_plain = str_concat5(
        "#![cfg_attr(not(feature = \"std\"), no_std, no_main)]\n\n#[ink::contract]\nmod ",
        module_name.as_str(),
        " {\n    #[ink(storage)]\n    pub struct ",
        struct_name.as_str(),
        " {\n        value: bool,\n    }\n\n    impl ",
    );
    let lib_plain = str_concat3(
        lib_plain.as_str(),
        struct_name.as_str(),
        " {\n        #[ink(constructor)]\n        pub fn new(init_value: bool) -> Self {\n            Self { value: init_value }\n        }\n\n        #[ink(message)]\n        pub fn flip(&mut self) {\n            self.value = !self.value;\n        }\n\n        #[ink(message)]\n        pub fn get(&self) -> bool {\n            self.value\n        }\n    }\n}\n",
    );
    let lib_snippet = str_concat5(
        "#![cfg_attr(not(feature = \"std\"), no_std, no_main)]\n\n#[ink::contract]\nmod ",
        module_name.as_str(),
        " {\n    #[ink(storage)]\n    pub struct ",
        struct_name.as_str(),
        " {\n        value: ${1:bool},\n    }\n\n    impl ",
    );
    let lib_snippet = str_concat3(
        lib_snippet.as_str(),
        struct_name.as_str(),
        " {\n        #[ink(constructor)]\n        pub fn new(init_value: bool) -> Self {\n            Self { value: init_value }\n        }\n\n        #[ink(message)]\n        pub fn flip(&mut self) {\n            self.value = !self.value;\n        }\n\n        #[ink(message)]\n        pub fn get(&self) -> bool {\n            self.value\n        }\n    }\n}\n",
    );
    let cargo_plain = str_concat3(
        "[package]\nname = \"",
        name.as_str(),
        "\"\nversion = \"0.1.0\"\nedition = \"2021\"\n\n[dependencies]\nink = { version = \"4\", default-features = false }\n\n[features]\ndefault = [\"std\"]\nstd = [\"ink/std\"]\n",
    );
    let cargo_snippet = str_concat3(
        "[package]\nname = \"",
        name.as_str(),
        "\"\nversion = \"${1:0.1.0}\"\nedition = \"2021\"\n\n[dependencies]\nink = { version = \"4\", default-features = false }\n\n[features]\ndefault = [\"std\"]\nstd = [\"ink/std\"]\n",
    );

    Ok(
        Project {
            lib: ProjectFile { plain: lib_plain, snippet: Some(lib_snippet) },
            cargo: ProjectFile { plain: cargo_plain, snippet: Some(cargo_snippet) },
        },
    )
}

/// The contract stub up to the module name.
pub open spec fn lib_head() -> Seq<char> {
    "#![cfg_attr(not(feature = \"std\"), no_std, no_main)]\n\n#[ink::contract]\nmod "@
}

/// The contract stub between the module name and the storage type name.
pub open spec fn lib_mid_storage() -> Seq<char> {
    " {\n    #[ink(storage)]\n    pub struct "@
}

/// The contract stub between the storage type name and its `impl` block.
pub open spec fn lib_mid_fields() -> Seq<char> {
    " {\n        value: bool,\n    }\n\n    impl "@
}

/// The snippet variant of `lib_mid_fields`, with a placeholder marker.
pub open spec fn lib_mid_fields_snippet() -> Seq<char> {
    " {\n        value: ${1:bool},\n    }\n\n    impl "@
}

/// The contract stub after the second storage type name occurrence.
pub open spec fn lib_tail() -> Seq<char> {
    " {\n        #[ink(constructor)]\n        pub fn new(init_value: bool) -> Self {\n            Self { value: init_value }\n        }\n\n        #[ink(message)]\n        pub fn flip(&mut self) {\n            self.value = !self.value;\n        }\n\n        #[ink(message)]\n        pub fn get(&self) -> bool {\n            self.value\n        }\n    }\n}\n"@
}

/// The manifest stub up to the package name.
pub open spec fn cargo_head() -> Seq<char> {
    "[package]\nname = \""@
}

/// The manifest stub after the package name.
pub open spec fn cargo_tail() -> Seq<char> {
    "\"\nversion = \"0.1.0\"\nedition = \"2021\"\n\n[dependencies]\nink = { version = \"4\", default-features = false }\n\n[features]\ndefault = [\"std\"]\nstd = [\"ink/std\"]\n"@
}

/// The snippet variant of `cargo_tail`, with a placeholder marker.
pub open spec fn cargo_tail_snippet() -> Seq<char> {
    "\"\nversion = \"${1:0.1.0}\"\nedition = \"2021\"\n\n[dependencies]\nink = { version = \"4\", default-features = false }\n\n[features]\ndefault = [\"std\"]\nstd = [\"ink/std\"]\n"@
}

} // verus!
