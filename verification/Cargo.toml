[package]
name = "c3_watchdog"
version = "0.1.0"
edition = "2021"
publish = false

[dependencies]
anyhow = "1"
gpiod = "*"
gpiosim = "*"
mio = { version = "*", features = ["net", "os-poll", "os-ext"] }
nix = { version = "*", features = ["signal", "time"] }
