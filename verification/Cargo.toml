[package]
name = "shutils"
version = "0.1.0"
edition = "2021"
publish = false

[dependencies]
chrono = "0.4"
diesel = { version = "2", features = ["sqlite", "chrono", "returning_clauses_for_sqlite_3_35"] }
dirs = "*"
libsqlite3-sys = { version = "*", features = ["bundled"] }
