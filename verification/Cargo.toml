[package]
name = "spider"
version = "0.1.0"
edition = "2021"
publish = false

[dependencies]
async-openai = "0.23"
bytes = "1"
case_insensitive_string = "*"
chromiumoxide = { version = "0.5", default-features = false, features = ["tokio-runtime", "bytes"] }
http = "1"
http-cache-reqwest = "0.14"
http-cache-semantics = "2"
log = "0.4"
lol_html = "1"
num_cpus = "1"
percent-encoding = "2"
reqwest = { version = "0.12", default-features = false, features = ["stream"] }
scraper = "*"
serde = { version = "1", features = ["derive"] }
serde_json = "1"
tiktoken-rs = "0.5"
tokio = { version = "1", features = ["rt-multi-thread", "macros", "time", "fs", "io-util", "sync"] }
tokio-stream = "0.1"
url = "2"
