[package]
name = "icy-sysmonitor"
version = "0.1.0"
edition = "2021"
publish = false

[dependencies]
bytesize = "=1.3.3"
directories-next = "=2.0.0"
iced = { version = "0.12", default-features = false, features = ["tokio"] }
iced_aw = { version = "0.9", default-features = false, features = ["tab_bar", "icons"] }
sysinfo = "=0.29.11"
toml = "=0.7.8"
