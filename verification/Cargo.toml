[package]
name = "probationdesk"
version = "0.1.0"
edition = "2021"
publish = false

[dependencies]
serde_json = "1"
clap = "4"
lazy_static = "1"
winapi = { version = "0.3", features = ["processthreadsapi", "handleapi", "minwinbase", "errhandlingapi", "winnt", "minwindef", "ntdef"] }
windows-service = "0.6"
winreg = "0.11"
