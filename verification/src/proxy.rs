//! Upstream proxies: the saved proxy records and the local forwarding proxy.

pub mod proxy_manager;
pub mod proxy_server;
