[package]
name = "solspin"
version = "0.1.0"
edition = "2021"
publish = false

[dependencies]
anchor-lang = "=1.2.1"
switchboard-on-demand = "=0.13.0"
bytemuck = "=1.25.2"
