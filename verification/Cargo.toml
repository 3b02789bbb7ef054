[package]
name = "web_window"
version = "0.1.0"
edition = "2021"
publish = false

[dependencies]
js-sys = "=0.3.106"
wasm-bindgen = "=0.2.129"
web-sys = { version = "=0.3.106", features = [
    "AddEventListenerOptions",
    "CssStyleDeclaration",
    "Document",
    "DomRect",
    "Element",
    "EventListenerOptions",
    "EventTarget",
    "HtmlCanvasElement",
    "HtmlElement",
    "Node",
    "Window",
    "console",
] }
