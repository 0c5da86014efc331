[package]
name = "presencehub"
version = "0.1.0"
edition = "2021"
publish = false

[dependencies]
serde = { version = "1", features = ["derive"] }
serde_json = "1"
toml = "0.8"
thiserror = "1"
winapi = { version = "0.3", features = ["winuser", "processthreadsapi", "tlhelp32", "handleapi", "winnt", "minwindef", "errhandlingapi", "winbase", "namedpipeapi"] }
