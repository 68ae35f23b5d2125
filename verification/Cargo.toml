[package]
name = "gse_integrated_board"
version = "0.1.0"
edition = "2021"
publish = false

[dependencies]
embassy-executor = "=0.10.0"
embassy-futures = "=0.1.2"
embassy-sync = "=0.8.0"
embassy-time = { version = "=0.5.1", features = ["tick-hz-1_000_000"] }
embedded-can = "=0.4.1"
esp-alloc = "*"
esp-backtrace = "*"
esp-bootloader-esp-idf = "*"
esp-hal = { version = "*", default-features = false }
esp-println = "*"
esp-radio = "*"
static_cell = "=2.1.1"

[dev-dependencies]
critical-section = { version = "=1.2.0", features = ["std"] }
