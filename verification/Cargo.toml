[package]
name = "bitlab_presale"
version = "0.1.0"
edition = "2021"
publish = false

[dependencies]
anchor-lang = { version = "=0.30.1", features = ["init-if-needed"] }
anchor-spl = { version = "=0.30.1", default-features = false, features = ["token"] }
solana-security-txt = "=1.1.3"

[dev-dependencies]
bs58 = "=0.5.1"
