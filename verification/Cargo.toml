[package]
name = "cargo_bitbake"
version = "0.1.0"
edition = "2021"
rust-version = "1.95"
publish = false

[dependencies]
anyhow = "=1.0.104"
cargo = "=0.95.0"
# the three pins below hold transitive dependencies of cargo to the
# newest versions whose declared rust-version this toolchain satisfies
cargo-credential-libsecret = "=0.5.5"
cargo-util = "=0.2.27"
clap = { version = "=4.5.61", features = ["derive"] }
itertools = "=0.14.0"
kstring = "=2.0.2"
