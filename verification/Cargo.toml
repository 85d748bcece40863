[package]
name = "genshin-force-fps"
version = "0.1.0"
edition = "2021"
publish = false

[dependencies]
lexopt = "=0.2.1"
log = "=0.4.34"
patternscan = "=1.2.0"
windows = { version = "=0.48.0", features = ["Win32_Foundation", "Win32_Security", "Win32_Storage_FileSystem", "Win32_System_Diagnostics_Debug", "Win32_System_ProcessStatus", "Win32_System_Registry", "Win32_System_Threading"] }
