[package]
name = "spacewars"
version = "0.1.0"
edition = "2021"
publish = false

[dependencies]
rand = "0.8"
piston = "*"
piston2d-graphics = "*"
pistoncore-glutin_window = "*"
piston2d-opengl_graphics = "*"
wasm-bindgen = "*"
js-sys = "*"
web-sys = { version = "*", features = ["CanvasRenderingContext2d", "Document", "Element", "EventTarget", "HtmlCanvasElement", "KeyboardEvent", "Window"] }
colorsys = "*"
console_error_panic_hook = "*"
