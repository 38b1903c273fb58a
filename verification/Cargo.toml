[package]
name = "spc2midi_tsuu"
version = "0.1.0"
edition = "2021"
publish = false

[dependencies]
rimd = "=0.0.1"
czt = "=0.3.7"
num-traits = "=0.2.19"
serde = { version = "=1.0.229", features = ["derive"] }
serde_json = "=1.0.154"
iced = { version = "0.14.0", default-features = false, features = ["canvas", "tiny-skia", "thread-pool"] }
iced_aw = "*"
iced_widget = "0.14.2"
samplerate = "*"
fixed-resample = "*"
