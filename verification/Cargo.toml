[package]
name = "moxie_dom"
version = "0.1.0"
edition = "2021"
publish = false

[dependencies]
quick-xml = "=0.22.0"
wasm-bindgen = "=0.2.130"
js-sys = "=0.3.107"
web-sys = { version = "=0.3.107", features = ["Document", "Element", "Window", "Node", "Text", "HtmlElement", "Event", "EventTarget", "NodeList", "MutationObserver", "MutationObserverInit", "MutationRecord", "NamedNodeMap", "Attr"] }
futures = "=0.3.34"
scopeguard = "=1.2.0"
moxie = "=0.7.1"
topo = "=0.13.2"
gloo-timers = { version = "0.2", features = ["futures"] }
