[package]
name = "humblegen"
version = "0.1.0"
edition = "2021"
publish = false

[dependencies]
regex = "=1.13.1"
Inflector = "=0.11.4"
base64 = "=0.12.3"
rand = "=0.7.3"
pest = "=2.9.4"
pest_derive = "=2.9.4"
serde_json = "=1.0.154"
serde_urlencoded = "0.7"
hyper = { version = "=0.14.32", features = ["server", "http1", "tcp"] }
tokio = { version = "=1.54.1", features = ["rt-multi-thread", "macros"] }
