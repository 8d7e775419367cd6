[package]
name = "win32console"
version = "0.1.0"
edition = "2021"
publish = false

[dependencies]
winapi = { version = "0.3", features = ["consoleapi", "errhandlingapi", "fileapi", "handleapi", "minwindef", "processenv", "winbase", "wincon", "wincontypes", "wingdi", "winnt"] }
