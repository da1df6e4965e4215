[package]
name = "dot_spheres"
version = "0.1.0"
edition = "2021"
publish = false

[dependencies]
nalgebra = "0.30"
ncollide3d = "0.33"
wasm-bindgen = "0.2"
web-sys = { version = "0.3", features = ["Window", "Document", "Element", "HtmlCanvasElement", "CanvasRenderingContext2d", "CanvasGradient", "console"] }
