[package]
name = "glider_api"
version = "0.1.0"
edition = "2021"
publish = false

[dependencies]
byteorder = "1"
bytes = "1"
crc16 = "0.4"
hidapi = { version = "2", default-features = false, features = ["linux-native-basic-udev"] }
pyo3 = { version = "0.22", features = ["extension-module"] }
