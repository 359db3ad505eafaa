[package]
name = "rpc_session"
version = "0.1.0"
edition = "2021"
publish = false

[dependencies]
shvrpc = "=13.2.0"
shvproto = "=6.4.0"
url = "2"
leptos = { version = "=0.6.15", features = ["csr"] }
leptos_meta = { version = "=0.6.15", features = ["csr"] }
leptos_router = { version = "=0.6.15", features = ["csr"] }
leptos-use = "=0.13.13"
codee = "=0.2.0"
futures = "0.3"
log = "0.4"
console_log = "1"
console_error_panic_hook = "0.1"
web-sys = "=0.3.106"
