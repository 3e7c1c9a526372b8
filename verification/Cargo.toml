[package]
name = "procrun"
version = "0.1.0"
edition = "2021"
publish = false

[dependencies]
anyhow = "*"
winapi = { version = "0.3", features = ["errhandlingapi", "handleapi", "ntdef", "processenv", "processthreadsapi", "synchapi", "winbase"] }
