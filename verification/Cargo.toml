[package]
name = "service_errors"
version = "0.1.0"
edition = "2021"
publish = false

[dependencies]
actix-web = { version = "*", default-features = false }
derive_more = { version = "*", features = ["display", "error"] }
diesel = { version = "*", default-features = false }
serde = { version = "*", features = ["derive"] }
utoipa = "*"
uuid = "*"
