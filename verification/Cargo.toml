[package]
name = "malachite_codec"
version = "0.1.0"
edition = "2021"
publish = false

[dependencies]
bytes = "=1.12.1"
prost = "=0.13.5"
informalsystems-malachitebft-core-types = "=0.5.0"
informalsystems-malachitebft-proto = "=0.5.0"
informalsystems-malachitebft-codec = "=0.5.0"
informalsystems-malachitebft-signing-ed25519 = "=0.5.0"
informalsystems-malachitebft-peer = "=0.5.0"
