[package]
name = "pixel_buffer"
version = "0.1.0"
edition = "2021"
publish = false

[dependencies]
raw-window-handle = "0.6"
x11-dl = "2"
wasm-bindgen = "0.2"
web-sys = { version = "0.3", features = ["Window", "Document", "Element", "HtmlElement", "HtmlCanvasElement", "HtmlCollection", "DomStringMap", "CanvasRenderingContext2d", "ImageData"] }
