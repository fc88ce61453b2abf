[package]
name = "channel_event_attributes"
version = "0.1.0"
edition = "2021"
publish = false

[dependencies]
ibc-core-client-types = "0.53"
ibc-core-host-types = "0.53"
ibc-primitives = "0.53"
subtle-encoding = "0.5"
tendermint = "0.36"
