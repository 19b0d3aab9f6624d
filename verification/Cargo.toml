[package]
name = "firewheel_dsp"
version = "0.1.0"
edition = "2021"
publish = false

[dependencies]
fft-convolver = "=0.4.0"
symphonium = { version = "=0.13.0", features = ["stretch-sinc-resampler"] }
