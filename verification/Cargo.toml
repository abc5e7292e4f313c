[package]
name = "honeybee"
version = "0.1.0"
edition = "2021"
publish = false

[dependencies]
base64 = "=0.22.1"
gift = "=0.10.6"
log = "=0.4.34"
ntcip = "=0.10.2"
percent-encoding = "=2.3.2"
pix = "=0.13.4"
postgres = "=0.19.14"
serde = { version = "=1.0.229", features = ["derive"] }
serde_json = "=1.0.154"
ssh2 = "=0.9.6"
wasm-bindgen = "=0.2.129"
wasm-bindgen-futures = "=0.4.79"
web-sys = { version = "=0.3.106", features = ["console", "Document", "Element", "Event", "EventTarget", "Headers", "HtmlElement", "HtmlInputElement", "HtmlSelectElement", "Request", "RequestInit", "Response", "Window"] }
