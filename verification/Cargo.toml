[package]
name = "ball_session"
version = "0.1.0"
edition = "2021"
publish = false

[dependencies]
rl_ball_sym = "=5.0.0"
pyo3 = "=0.30.1"
softfloat = "=1.0.0"
