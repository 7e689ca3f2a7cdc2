[package]
name = "diesis"
version = "0.1.0"
edition = "2021"
publish = false

[dependencies]
alloy-primitives = { version = "=1.7.3", features = ["rlp", "arbitrary"] }
alloy-rlp = "=0.3.17"
alloy-eips = { version = "=2.5.0", features = ["arbitrary"] }
alloy-consensus = { version = "=2.5.0", features = ["k256", "secp256k1", "arbitrary"] }
alloy-rpc-types-eth = "=2.5.0"
alloy-evm = "=0.39.0"
revm = "=43.0.3"
reth-codecs = { version = "=0.8.2", features = ["alloy"] }
reth-primitives-traits = "=0.8.2"
reth-zstd-compressors = "=0.8.2"
arbitrary = "1"
secp256k1 = { version = "0.30", features = ["rand"] }
tokio = { version = "=1.54.1", features = ["sync", "rt", "macros"] }
crossbeam-channel = "0.5"
futures = "=0.3.34"
thiserror = "2"
