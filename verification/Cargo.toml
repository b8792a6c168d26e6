[package]
name = "wl_nl80211"
version = "0.1.0"
edition = "2021"
publish = false

[dependencies]
anyhow = "=1.0.104"
futures = "=0.3.34"
genetlink = { version = "=0.2.5", default-features = false }
log = "=0.4.34"
netlink-packet-core = "=0.7.0"
netlink-packet-generic = "=0.3.3"
netlink-packet-utils = "=0.5.2"
