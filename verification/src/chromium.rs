//! Browser profiles, their managers and the DevTools session of a running
//! profile.

pub mod chromium;
pub mod chromium_manager;
pub mod driver;
pub mod websocket;
