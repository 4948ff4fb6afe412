[package]
name = "eth_rpc_helpers"
version = "0.1.0"
edition = "2021"
publish = false

[dependencies]
alloy-consensus = "*"
alloy-primitives = "*"
alloy-rpc-types-eth = "*"
op-alloy-rpc-types = "*"
reth-chainspec = "*"
reth-optimism-evm = "*"
reth-optimism-forks = "*"
reth-optimism-primitives = "*"
reth-rpc-convert = "*"
reth-rpc-eth-api = "*"
reth-storage-api = "*"
reth-transaction-pool = "*"
