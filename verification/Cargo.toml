[package]
name = "canvas_sync"
version = "0.1.0"
edition = "2021"
publish = false

[dependencies]
anyhow = "*"
chrono = "*"
clap = { version = "*", features = ["derive"] }
filetime = "*"
futures = "*"
ignore = "*"
indicatif = "*"
lazy-regex = "*"
m3u8-rs = "*"
parse_link_header = "*"
rand = "*"
regex = "*"
reqwest = { version = "*", default-features = false, features = ["json", "cookies", "query", "form", "charset"] }
sanitize-filename = "*"
select = "*"
serde = { version = "*", features = ["derive"] }
serde_json = "*"
termsize = "*"
tokio = { version = "*", features = ["rt-multi-thread", "macros", "sync", "time"] }
tracing = "*"
