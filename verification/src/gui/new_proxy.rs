//! The panel that adds a proxy.

use vstd::prelude::*;
use crate::proxy::proxy_manager::{max_id, ProxyManager};

verus! {

/// The form for a new proxy.
#[derive(Debug)]
pub struct NewProxyPanel {
    pub name: String,
    pub protocol: String,
    pub host: String,
    pub port: String,
    pub username: String,
    pub password: String,
}

impl NewProxyPanel {
    /// An empty form.
    pub fn new() -> (r: Self)
        ensures
            r.name@.len() == 0,
            r.protocol@.len() == 0,
            r.host@.len() == 0,
            r.port@.len() == 0,
            r.username@.len() == 0,
            r.password@.len() == 0,
    {
        NewProxyPanel {
            name: String::new(),
            protocol: String::new(),
            host: String::new(),
            port: String::new(),
            username: String::new(),
            password: String::new(),
        }
    }

    /// Adds the proxy of the form to the table; tells whether the table had
    /// an id left for it.
    pub fn add(&self, manager: &mut ProxyManager) -> (added: bool)
        ensures
            added == (max_id(old(manager).proxies@) < u32::MAX),
            !added ==> final(manager).proxies@ == old(manager).proxies@,
            added ==> {
                &&& final(manager).proxies@.drop_last() == old(manager).proxies@
                &&& final(manager).proxies@.len() == old(manager).proxies@.len() + 1
                &&& final(manager).proxies@.last().id == max_id(old(manager).proxies@) + 1
                &&& final(manager).proxies@.last().name@ == self.name@
                &&& final(manager).proxies@.last().protocol@ == self.protocol@
                &&& final(manager).proxies@.last().host@ == self.host@
                &&& final(manager).proxies@.last().port@ == self.port@
                &&& final(manager).proxies@.last().username@ == self.username@
                &&& final(manager).proxies@.last().password@ == self.password@
                &&& final(manager).proxies@.last().unchecked()
            },
    {
        if !manager.has_room() {
            return false;
        }
        manager.add_new_proxy(
            self.name.clone(),
            self.protocol.clone(),
            self.host.clone(),
            self.port.clone(),
            self.username.clone(),
            self.password.clone(),
        );
        true
    }
}

} // verus!
