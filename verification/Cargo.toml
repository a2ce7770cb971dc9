[package]
name = "parachain_service"
version = "0.1.0"
edition = "2021"
publish = false

[dependencies]
async-trait = "0.1"
cumulus-primitives-core = "=0.16.0"
futures = "0.3"
log = "0.4"
sc-executor-common = "0.35"
sp-consensus-aura = "=0.40.0"
sp-timestamp = "=34.0.0"
