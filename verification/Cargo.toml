[package]
name = "cello_cards"
version = "0.1.0"
edition = "2021"
publish = false

[dependencies]
rand = "=0.8.8"
wasm-bindgen = "=0.2.129"
js-sys = "=0.3.106"
console_error_panic_hook = "=0.1.7"

[dependencies.web-sys]
version = "=0.3.106"
features = [
    "Window",
    "Document",
    "Element",
    "Node",
    "EventTarget",
    "Event",
    "UiEvent",
    "MouseEvent",
    "KeyboardEvent",
    "HtmlElement",
    "HtmlInputElement",
    "HtmlSelectElement",
    "HtmlCollection",
    "CssStyleDeclaration",
    "SvgElement",
    "SvgGraphicsElement",
    "SvgsvgElement",
    "console",
]
