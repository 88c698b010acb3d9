[package]
name = "titlebot"
version = "0.1.0"
edition = "2021"
publish = false

[dependencies]
rand = "=0.8.8"
takecell = ">=0.1, <0.1.2"
dotenv = "=0.15.0"
dptree = "=0.5.1"
grammers-client = "=0.7.0"
grammers-session = "0.7"
pretty_env_logger = "=0.5.0"
teloxide = { version = "=0.17.0", default-features = false, features = ["rustls", "ctrlc_handler"] }
tokio = { version = "=1.53.2", features = ["macros", "rt-multi-thread"] }
