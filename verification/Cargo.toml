[package]
name = "macropad_bridge"
version = "0.1.0"
edition = "2021"
publish = false

[dependencies]
anyhow = "=1.0.104"
clap = { version = "=4.6.7", features = ["derive"] }
clap-num = "=1.2.0"
hidapi = { version = "=2.6.7", default-features = false, features = ["linux-native-basic-udev"] }
log = "=0.4.34"
nix = { version = "=0.27.1", features = ["ioctl"] }
serde = { version = "=1.0.229", features = ["derive"] }
serde_json = "=1.0.154"
serde_tuple = "=0.5.0"
simple_logger = "=4.3.3"
tokio = { version = "=1.54.1", features = ["rt", "macros"] }
