[package]
name = "callback_vm"
version = "0.1.0"
edition = "2021"
publish = false

[dependencies]
sputnikvm = "=0.10.1"
etcommon-bigint = "=0.2.10"
etcommon-block-core = "=0.1.0"
