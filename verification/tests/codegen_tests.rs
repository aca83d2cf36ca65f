//! Tests for ink! project code generation.

use ink_analyzer::codegen::{new_project, Error};

#[test]
fn invalid_project_name_fails() {
    for (name, expected_error) in [
        // Empty.
        ("", Error::PackageName),
        // Disallowed characters (i.e. not alphanumeric, `-` or `_`).
        ("hello!", Error::PackageName),
        ("hello world", Error::PackageName),
        ("💝", Error::PackageName),
        // Starts with non-alphabetic character.
        ("1hello", Error::ContractName),
        ("-hello", Error::ContractName),
        ("_hello", Error::ContractName),
    ] {
        let result = new_project(name.to_string());
        match result {
            Err(e) => assert_eq!(e, expected_error),
            Ok(_) => panic!("expected an error for name: {name}"),
        }
    }
}

#[test]
fn valid_project_name_works() {
    for name in ["hello", "hello_world", "hello-world"] {
        // Generates an ink! contract project.
        let result = new_project(name.to_string());
        assert!(result.is_ok());

        // Verifies the structure of the generated code stubs: the module is
        // named after the package and the storage type with its Pascal case
        // form.
        let project = result.unwrap();
        let module_name = name.replace('-', "_");
        let lib = project.lib.plain;
        assert!(lib.contains(&format!("mod {module_name}")));
        assert!(lib.contains("#[ink::contract]"));
        assert!(lib.contains("#[ink(storage)]"));
        assert!(lib.contains("#[ink(constructor)]"));
        assert!(lib.contains("#[ink(message)]"));
        let cargo = project.cargo.plain;
        assert!(cargo.contains(&format!("name = \"{name}\"")));
    }
}

#[test]
fn generated_names_are_pascal_case() {
    let project = new_project("hello-world".to_string()).unwrap();
    assert!(project.lib.plain.contains("mod hello_world"));
    assert!(project.lib.plain.contains("pub struct HelloWorld"));
    assert!(project.lib.plain.contains("impl HelloWorld"));
    // The snippet form differs from the plain form only in placeholder
    // decoration.
    let snippet = project.lib.snippet.unwrap();
    assert_eq!(
        snippet.replace("${1:bool}", "bool"),
        project.lib.plain
    );
}
