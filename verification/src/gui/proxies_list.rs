//! The panel that lists the proxies and edits one of them.

use vstd::prelude::*;
use crate::proxy::proxy_manager::ProxyConfig;

verus! {

/// The list of proxies, with the proxy under edit.
#[derive(Debug)]
pub struct ProxiesListPanel {
    /// A copy of the proxy under edit.
    pub selected_proxy: ProxyConfig,
    /// The id of the proxy under edit; 0 where none is.
    pub id_to_edit: u32,
    /// Whether the edited copy is to be written back.
    pub save_changes_status: bool,
    pub show_username: bool,
    pub show_password: bool,
}

/// What stands in place of a hidden credential.
pub open spec fn masked_text() -> Seq<char> {
    "********"@
}

impl ProxiesListPanel {
    /// The panel with no proxy under edit and the credentials hidden.
    pub fn new() -> (r: Self)
        ensures
            r.selected_proxy.blank(),
            r.id_to_edit == 0,
            !r.save_changes_status,
            !r.show_username,
            !r.show_password,
    {
        ProxiesListPanel {
            selected_proxy: ProxyConfig::default(),
            id_to_edit: 0,
            save_changes_status: false,
            show_username: false,
            show_password: false,
        }
    }

    /// Takes a proxy under edit.
    pub fn select(&mut self, proxy: &ProxyConfig)
        ensures
            final(self).selected_proxy == *proxy,
            final(self).id_to_edit == proxy.id,
            final(self).save_changes_status == old(self).save_changes_status,
            final(self).show_username == old(self).show_username,
            final(self).show_password == old(self).show_password,
    {
        self.selected_proxy = proxy.clone();
        self.id_to_edit = proxy.id;
    }

    /// Ends the edit without writing back.
    pub fn close(&mut self)
        ensures
            final(self).id_to_edit == 0,
            !final(self).save_changes_status,
            final(self).selected_proxy == old(self).selected_proxy,
            final(self).show_username == old(self).show_username,
            final(self).show_password == old(self).show_password,
    {
        self.id_to_edit = 0;
        self.save_changes_status = false;
    }

    /// A proxy's username as the list shows it.
    pub fn shown_username<'a>(&self, proxy: &'a ProxyConfig) -> (r: &'a str)
        ensures
            r@ == if self.show_username {
                proxy.username@
            } else {
                masked_text()
            },
    {
        if self.show_username {
            proxy.username.as_str()
        } else {
            "********"
        }
    }

    /// A proxy's password as the list shows it.
    pub fn shown_password<'a>(&self, proxy: &'a ProxyConfig) -> (r: &'a str)
        ensures
            r@ == if self.show_password {
                proxy.password@
            } else {
                masked_text()
            },
    {
        if self.show_password {
            proxy.password.as_str()
        } else {
            "********"
        }
    }
}

} // verus!
