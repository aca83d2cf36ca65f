[package]
name = "ink_analyzer"
version = "0.1.0"
edition = "2021"
publish = false

[dependencies]
ra_ap_syntax = "=0.0.330"
lsp-types = "*"
lsp-server = "*"
crossbeam-channel = "*"
serde_json = "*"
unicode-ident = "=1.0.24"
