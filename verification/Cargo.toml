[package]
name = "howlong"
version = "0.1.2"
edition = "2021"
publish = false

[dependencies]
cfg-if = "1"
errno = "0.2"
libc = "0.2"
thiserror = "1"
winapi = { version = "0.3", features = ["errhandlingapi", "minwindef", "processthreadsapi", "profileapi", "sysinfoapi", "winnt"] }
