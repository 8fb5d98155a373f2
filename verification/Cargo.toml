[package]
name = "wasmgl"
version = "0.1.0"
edition = "2021"
publish = false

[dependencies]
wasm-bindgen = "0.2"
wasm-bindgen-futures = "0.4"
js-sys = "0.3"
web-sys = { version = "0.3", features = ["CanvasRenderingContext2d", "Document", "DomRect", "Element", "Event", "EventTarget", "HtmlCanvasElement", "HtmlImageElement", "ImageBitmap", "KeyboardEvent", "MouseEvent", "WebGl2RenderingContext", "WebGlBuffer", "WebGlProgram", "WebGlShader", "WebGlTexture", "WebGlUniformLocation", "Window"] }
gloo = "0.8"
yew = { version = "0.20", features = ["csr"] }
yew-router = "0.17"
nalgebra = "0.32"
reqwasm = "0.5"
wasm-logger = "0.2"
wee_alloc = "0.4"
