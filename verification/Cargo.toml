[package]
name = "productivity_timer"
version = "0.2.0"
edition = "2021"
publish = false

[dependencies]
clap = "2"
daemonize = "0.4"
dirs = "4"
dotenv = "0.15"
oauth2 = "4"
regex = "1"
reqwest = { version = "0.11", features = ["blocking", "json"] }
rusqlite = "0.27"
serde = { version = "1", features = ["derive"] }
termion = "1.5"
tui = { version = "0.16", default-features = false, features = ["termion"] }
