[package]
name = "graph_graphql"
version = "0.1.0"
edition = "2021"
publish = false

[dependencies]
graphql-parser = "0.2"
futures = "0.1"
