[package]
name = "dnslogger_utils"
version = "0.1.0"
edition = "2021"
publish = false

[dependencies]
byteorder = "1"
pcap = "*"
clap = "2"
