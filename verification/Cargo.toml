[package]
name = "abstract-dca-app"
version = "0.1.0"
edition = "2021"
publish = false

[dependencies]
cosmwasm-std = "=1.5.11"
cosmwasm-schema = "=1.5.11"
cw-storage-plus = "=1.1.0"
cw-asset = "=3.0.0"
cw-controllers = "=1.1.0"
cw20 = "=0.16.0"
abstract-core = "=0.17.2"
abstract-sdk = "=0.17.2"
abstract-app = "=0.17.2"
croncat-integration-utils = "=1.1.1"
thiserror = "=1.0.40"
