[package]
name = "asteroids"
version = "0.1.0"
edition = "2021"
publish = false

[dependencies]
rand = "0.8"
wasm-bindgen = "*"
js-sys = "*"
web-sys = { version = "*", features = ["console", "Document", "Element", "HtmlCanvasElement", "Window", "WebGlBuffer", "WebGlProgram", "WebGlRenderingContext", "WebGlShader", "WebGlUniformLocation"] }
console_error_panic_hook = "*"
nalgebra-glm = "*"
