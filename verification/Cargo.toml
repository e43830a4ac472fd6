[package]
name = "ubx2rinex"
version = "0.1.0"
edition = "2021"
publish = false

[dependencies]
hifitime = "=4.3.1"
rinex = "=0.23.0"
ublox = "=0.10.0"
gnss-protos = { version = "=0.0.2", features = ["gps"] }
gnss-rs = "=2.7.0"
flate2 = "=1.1.10"
tokio = { version = "=1.53.2", features = ["rt-multi-thread", "macros", "sync", "signal", "time"] }
log = "=0.4.34"
env_logger = "=0.11.11"
serialport = "=4.10.1"
clap = "=4.6.7"
itertools = "=0.11.0"
