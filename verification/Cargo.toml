[package]
name = "fc_block"
version = "0.1.0"
edition = "2021"
publish = false

[dependencies]
event-manager = "0.4"
vmm-sys-util = "0.12"
thiserror = "2"
displaydoc = "0.2"
virt-fwk = "*"
