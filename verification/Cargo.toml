[package]
name = "x509_util"
version = "0.1.0"
edition = "2021"
publish = false

[dependencies]
async-trait = "=0.1.92"
bumpalo-herd = "=0.1.3"
chrono = "=0.4.45"
clap = { version = "=4.6.7", features = ["derive"] }
clap_complete = "=4.6.11"
color-eyre = "=0.6.5"
const-oid = { version = "=0.9.6", features = ["db"] }
der = { version = "=0.6.1", features = ["alloc", "derive", "flagset", "oid", "pem", "std"] }
flagset = "=0.4.7"
p256 = "=0.11.1"
p384 = "=0.11.2"
pkcs1 = { version = "=0.4.1", features = ["alloc", "std"] }
pkcs8 = { version = "=0.9.0", features = ["alloc", "pem", "std"] }
rand = "=0.8.8"
rand_core = { version = "=0.6.4", features = ["getrandom"] }
rsa = "=0.7.2"
sha1 = "=0.10.7"
sha2 = { version = "=0.10.9", features = ["oid"] }
spki = { version = "=0.6.0", features = ["alloc", "pem", "std"] }
thiserror = "=1.0.69"
tokio = { version = "=1.54.1", features = ["macros", "rt-multi-thread"] }
tracing-subscriber = { version = "=0.3.23", features = ["env-filter"] }
x509-cert = "=0.1.1"
xdg = "=2.5.2"
