[package]
name = "turso_pg"
version = "0.1.0"
edition = "2021"
publish = false

[dependencies]
turso_core = "*"
turso_parser = "*"
turso_pg_parser = "*"
