[package]
name = "lake_pulse"
version = "0.1.0"
edition = "2021"
publish = false

[dependencies]
prometheus = "=0.14.0"
clap = { version = "=4.6.7", features = ["derive"] }
tokio = { version = "=1.53.2", features = ["rt-multi-thread", "macros", "sync", "time"] }
futures = "=0.3.34"
tokio-stream = "=0.1.19"
tracing-subscriber = { version = "=0.3.23", features = ["env-filter"] }
actix-web = "=4.15.0"
teloxide = { version = "=0.12.2", default-features = false, features = ["rustls"] }
# Not used directly: holds teloxide-core's transitive `takecell = "0.1"` below
# 0.1.2, whose declared minimum rustc is newer than this build's toolchain.
takecell = { version = ">=0.1.0, <0.1.2" }
