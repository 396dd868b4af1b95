[package]
name = "cosmic_applet_timeplus"
version = "0.1.0"
edition = "2021"
publish = false

[dependencies]
chrono = "=0.4.45"
chrono-tz = "=0.10.4"
icu = "=2.4.0"
clap = { version = "=4.6.7", features = ["derive"] }
dirs = "=7.0.0"
logind-zbus = "=3.0.3"
timedate-zbus = "=0.1.0"
tokio = { version = "=1.54.1", features = ["macros", "rt", "sync", "time"] }
tracing = "=0.1.44"
tracing-log = "=0.2.0"
tracing-subscriber = { version = "=0.3.23", features = ["env-filter"] }
zbus = "=3.15.2"
