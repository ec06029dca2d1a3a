[package]
name = "wlx_graphics"
version = "0.1.0"
edition = "2021"
publish = false

[dependencies]
anyhow = "1"
ash = "0.37"
chrono = "0.4"
clap = { version = "4", features = ["derive"] }
ctrlc = "3"
flexi_logger = "0.27"
log = "0.4"
log-panics = { version = "2", features = ["with-backtrace"] }
png = "0.17"
smallvec = "1"
vulkano = "0.34"
winit = "0.28"
