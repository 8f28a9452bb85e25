[package]
name = "puppet"
version = "0.1.0"
edition = "2021"
publish = false

[dependencies]
log = "*"
wasm-bindgen = "*"
web-sys = { version = "*", features = ["Window", "Document", "Element", "HtmlElement", "CssStyleDeclaration", "Node"] }
console_log = "*"
console_error_panic_hook = "*"
