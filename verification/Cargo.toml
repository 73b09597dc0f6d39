[package]
name = "xcnft"
version = "0.1.0"
edition = "2021"
publish = false

[dependencies]
cumulus-primitives-core = "0.16"
frame-support = "38"
frame-system = "38"
log = "0.4"
pallet-balances = "39"
pallet-nfts = "32"
parity-scale-codec = { version = "3", features = ["derive", "max-encoded-len"] }
scale-info = { version = "2", features = ["derive"] }
sp-io = "38"
sp-runtime = "39"
staging-parachain-info = "0.17"
staging-xcm = "14"
