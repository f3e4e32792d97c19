[package]
name = "suricata"
version = "5.0.3"
edition = "2021"
publish = false

[dependencies]
nom = "4.2"
crc = "1.8"
x509-parser = "0.6"
