[package]
name = "luxamor"
version = "0.1.0"
edition = "2021"
publish = false

[dependencies]
rand = "0.8"
colors-transform = "0.2"
chrono = { version = "0.4", features = ["serde"] }
rocket = { version = "0.5", features = ["json", "secrets"] }
rocket_sync_db_pools = { version = "0.1", features = ["diesel_sqlite_pool"] }
diesel = { version = "2", features = ["sqlite", "chrono"] }
diesel_migrations = "2"
rocket_dyn_templates = { version = "0.1", features = ["tera"] }
rocket-governor = "=0.2.0-rc.4"
config = { version = "0.13", default-features = false, features = ["toml"] }
lazy_static = "1"
reqwest = { version = "0.11", default-features = false }
inline_colorization = "0.1"
