[package]
name = "seshat"
version = "0.1.0"
edition = "2021"
publish = false

[dependencies]
rusqlite = { version = "*", features = ["bundled"] }
sha3 = "*"
base16ct = { version = "*", features = ["alloc"] }
percent-encoding = "*"
mime_guess = "*"
mime = "*"
actix-web = "*"
actix-files = "*"
clap = { version = "*", features = ["derive"] }
serde = { version = "*", features = ["derive"] }
quick-xml = { version = "*", features = ["serialize"] }
serde_urlencoded = "*"
time = { version = "*", features = ["formatting", "parsing"] }
eyre = "*"
thiserror = "*"
tokio = { version = "*", features = ["rt", "fs", "macros"] }
