//! Browser-profile management core: the request policy, the DevTools session
//! driver and the local forwarding proxy, with their contracts.

pub mod chrome;
pub mod chromium;
pub mod codec;
pub mod fingerprint_manager;
pub mod gui;
pub mod policy;
pub mod proxy;
pub mod proxy_manager;
pub mod proxy_server;
pub mod text;
pub mod websocket;
