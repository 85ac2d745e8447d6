[package]
name = "git-it-done"
version = "0.1.0"
edition = "2021"
publish = false

[dependencies]
markdown = "*"
git2 = { version = "*", default-features = false }
leptos = { version = "*", features = ["ssr"] }
leptos_meta = { version = "*", features = ["ssr"] }
leptos_router = { version = "*", features = ["ssr"] }
serde = { version = "*", features = ["derive"] }
web-sys = { version = "*", features = ["Event"] }
