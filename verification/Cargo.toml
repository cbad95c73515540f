[package]
name = "ppl_service"
version = "0.1.0"
edition = "2021"
publish = false

[dependencies]
flate2 = "1"
log = "0.4"
windows-sys = { version = "0.59", features = ["Win32_Foundation", "Win32_Security", "Win32_Storage_FileSystem", "Win32_System_Services", "Win32_System_Antimalware", "Win32_System_Diagnostics_Debug"] }
