[package]
name = "pop_upgrade"
version = "0.1.0"
edition = "2021"
publish = false

[dependencies]
chrono = "=0.4.45"
regex = "=1.13.1"
os-release = "=0.1.0"
systemd-boot-conf = "=0.2.2"
proc-mounts = "=0.3.0"
anyhow = "=1.0.104"
thiserror = "=1.0.69"
rustix = { version = "=1.1.6", features = ["fs"] }
sysinfo = { version = "=0.40.1", default-features = false, features = ["system"] }
sys-mount = { version = "=3.1.1", default-features = false }
tempdir = "=0.3.7"
yansi = "=1.0.1"
clap = "=4.6.7"
log = "=0.4.35"
fern = "=0.6.2"
sysfs-class = "*"
