[package]
name = "rs_wikipage2ql"
version = "0.1.0"
edition = "2021"
publish = false

[dependencies]
async-graphql = "*"
async-trait = "0.1"
rs-wikipages2struct = "*"
