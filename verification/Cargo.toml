[package]
name = "kiosk_session"
version = "0.1.0"
edition = "2021"
publish = false

[dependencies]
anyhow = "*"
axum = "*"
dotenv = "*"
machineid-rs = "*"
serde = { version = "*", features = ["derive"] }
serde_json = "*"
supabase_rs = "*"
tokio = { version = "*", features = ["macros", "rt-multi-thread", "sync", "time", "net"] }
