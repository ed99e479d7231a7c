[package]
name = "canvas_worker"
version = "0.1.0"
edition = "2021"
publish = false

[dependencies]
atomic-waker = "1"
concurrent-queue = "2"
js-sys = "0.3"
raw-window-handle = "0.6"
wasm-bindgen = "0.2"
wasm-bindgen-futures = "0.4"
web-time = "1"

[dependencies.web-sys]
version = "0.3"
features = [
    "DedicatedWorkerGlobalScope",
    "Element",
    "EventTarget",
    "HtmlCanvasElement",
    "HtmlElement",
    "MessageChannel",
    "MessagePort",
    "Node",
    "OffscreenCanvas",
    "Window",
    "WorkerGlobalScope",
]
