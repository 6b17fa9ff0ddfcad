[package]
name = "auto_lsp"
version = "0.1.0"
edition = "2021"
publish = false

[dependencies]
tree-sitter = "=0.26.13"
texter = "=0.3.0"
lsp-types = "=0.97.0"
dashmap = "=6.2.1"
syn = { version = "=2.0.119", features = ["full", "extra-traits"] }
quote = "=1.0.47"
proc-macro2 = "=1.0.107"
serde = { version = "=1.0.229", features = ["derive"] }
serde_json = "=1.0.154"
anyhow = "=1.0.104"
thiserror = "=2.0.21"
crossbeam-channel = "=0.5.17"
lsp-server = "=0.10.0"
rayon = "=1.12.0"
walkdir = "=2.5.0"
log = "=0.4.35"
parking_lot = "=0.13.0"
darling = "=0.20.11"

[dev-dependencies]
tree-sitter-python = "=0.25.0"
tree-sitter-html = "=0.23.2"
tree-sitter-javascript = "=0.25.0"
tree-sitter-c = "=0.24.2"
tree-sitter-c-sharp = "=0.23.5"
tree-sitter-haskell = "=0.24.1"
