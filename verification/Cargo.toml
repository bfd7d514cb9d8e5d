[package]
name = "libp2p_state"
version = "0.1.0"
edition = "2021"
publish = false

[dependencies]
futures = "0.3"
futures-timer = "3"
instant = "0.1"
js-sys = "0.3"
libp2p-core = "0.40"
libp2p-identity = { version = "0.2", features = ["ed25519", "peerid", "rand"] }
libp2p-noise = "0.43"
libp2p-swarm = "0.43"
log = "0.4"
send_wrapper = { version = "0.6", features = ["futures"] }
smallvec = "1"
void = "1"
wasm-bindgen = "0.2"
wasm-bindgen-futures = "0.4"
web-sys = { version = "0.3", features = ["ReadableStream", "ReadableStreamDefaultReader"] }

[dev-dependencies]
futures_ringbuf = "0.4"
