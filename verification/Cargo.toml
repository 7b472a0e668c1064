[package]
name = "tull"
version = "0.1.0"
edition = "2021"
publish = false

[dependencies]
handlebars = "4"
home = "0.5"
reqwest = { version = "0.12", default-features = false, features = ["blocking"] }
serde_json = "1"
structopt = "0.3"
tokio = { version = "1", features = ["macros", "rt-multi-thread"] }
uuid = { version = "1", features = ["v4"] }
warp = { version = "0.3", default-features = false }
