[package]
name = "lesson_pipeline"
version = "0.1.0"
edition = "2021"
publish = false

[dependencies]
serde = { version = "*", features = ["derive"] }
serde_json = "*"
wstd = "*"
typst = "*"
typst-as-lib = "*"
typst-pdf = "*"
derive_typst_intoval = "*"
