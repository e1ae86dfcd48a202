[package]
name = "braintree"
version = "0.1.0"
edition = "2021"
publish = false

[dependencies]
base64 = "*"
libflate = "*"
hyper = "0.10"
hyper-native-tls = "0.3"
