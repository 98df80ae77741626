//! A plain forwarding proxy that adds the upstream proxy's credentials to
//! every request.

use vstd::prelude::*;
use crate::proxy::proxy_server::{basic_authorization, basic_authorization_text, credentials_fit};

verus! {

/// The upstream proxy and its credentials.
#[derive(Debug)]
pub struct ProxyConfig {
    pub host: String,
    pub port: u16,
    pub username: String,
    pub password: String,
}

/// The port on which the forwarding proxy listens, on the loopback address.
pub const LISTEN_PORT: u16 = 8080;

impl Clone for ProxyConfig {
    fn clone(&self) -> (r: Self)
        ensures
            r == *self,
    {
        ProxyConfig {
            host: self.host.clone(),
            port: self.port,
            username: self.username.clone(),
            password: self.password.clone(),
        }
    }
}

/// The name of the header that carries the credentials.
pub fn authorization_header() -> (r: &'static str)
    ensures
        r@ == "Proxy-Authorization"@,
{
    "Proxy-Authorization"
}

/// The value of the header that a forwarded request gets: the basic
/// credentials of the upstream proxy. There is none for credentials too
/// long to be encoded.
pub fn proxy_handler(proxy_config: &ProxyConfig) -> (r: Option<String>)
    ensures
        match r {
            Some(value) => credentials_fit(proxy_config.username@, proxy_config.password@)
                && value@ == basic_authorization_text(
                proxy_config.username@,
                proxy_config.password@,
            ),
            None => !credentials_fit(proxy_config.username@, proxy_config.password@),
        },
{
    basic_authorization(proxy_config.username.as_str(), proxy_config.password.as_str())
}

} // verus!
