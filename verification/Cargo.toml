[package]
name = "build_worker"
version = "0.1.0"
edition = "2021"
publish = false

[dependencies]
log = "0.4"
pretty_env_logger = "*"
rusoto_core = { version = "0.48", default-features = false, features = ["rustls"] }
rusoto_ecr = { version = "0.48", default-features = false, features = ["rustls"] }
structopt = "0.3"
tokio = { version = "1", features = ["rt-multi-thread"] }
