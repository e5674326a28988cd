[package]
name = "portmapper"
version = "0.1.0"
edition = "2021"
publish = false

[dependencies]
rand = "*"
libc = "*"
netdev = "*"
igd-next = "*"
tokio = { version = "*", features = ["net", "time", "sync", "rt"] }
futures-lite = "*"
rtnetlink = "*"
netlink-packet-core = "*"
netlink-packet-route = "*"
netlink-proto = "*"
netlink-sys = "*"
