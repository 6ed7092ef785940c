[package]
name = "ratzilla_widgets"
version = "0.1.0"
edition = "2021"
publish = false

[dependencies]
ratatui = "*"
web-sys = { version = "*", features = ["CanvasRenderingContext2d", "Document", "Element", "EventTarget", "HtmlCanvasElement", "HtmlElement", "HtmlImageElement", "HtmlMediaElement", "HtmlVideoElement", "MediaError", "Node", "WebGl2RenderingContext", "WebGlBuffer", "WebGlFramebuffer", "WebGlProgram", "WebGlShader", "WebGlTexture", "WebGlUniformLocation", "WebGlVertexArrayObject", "Window"] }
wasm-bindgen-futures = "*"
glow = "*"
thiserror = "*"
web-time = "*"
