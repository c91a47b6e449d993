[package]
name = "uni_app"
version = "0.1.0"
edition = "2021"
publish = false

[dependencies]
glutin = "=0.29.1"
wasm-bindgen = "=0.2.129"
web-sys = { version = "=0.3.106", features = ["Window", "Document", "Element", "HtmlElement", "HtmlCanvasElement", "Node", "KeyboardEvent", "MouseEvent", "WebGl2RenderingContext", "console"] }
