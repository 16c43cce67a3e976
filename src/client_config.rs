//! The immutable configuration of a running executor.
use vstd::prelude::*;
use crate::text::{decimal, push_decimal};

verus! {

/// Where the coordinators are, how to authenticate to them, and how this
/// executor is reached. Built once at startup and never changed.
#[derive(Clone, Debug)]
pub struct ClientConfig {
    /// Comma-separated coordinator base addresses.
    pub server_address: String,
    pub access_token: String,
    pub app_name: String,
    /// The advertised ip of this executor.
    pub ip: String,
    /// The advertised and listened-on port.
    pub port: u16,
    pub log_path: String,
    pub log_retention_days: u32,
    pub ssl_danger_accept_invalid_certs: bool,
}

/// The local listen address for `port`.
pub open spec fn http_addr(port: u16) -> Seq<char> {
    "0.0.0.0:"@ + decimal(port as nat)
}

/// The reachable address of an executor advertised at `ip` and `port`.
pub open spec fn advertised_addr(ip: Seq<char>, port: u16) -> Seq<char> {
    "http://"@ + ip + ":"@ + decimal(port as nat)
}

impl ClientConfig {
    /// The address the inbound server listens on.
    pub fn get_http_addr(&self) -> (r: String)
        ensures
            r@ == http_addr(self.port),
    {
        let mut s = String::from_str("0.0.0.0:");
        push_decimal(&mut s, self.port as u64);
        s
    }

    /// The address under which the coordinator reaches this executor.
    pub fn get_advertised_addr(&self) -> (r: String)
        ensures
            r@ == advertised_addr(self.ip@, self.port),
    {
        let mut s = String::from_str("http://");
        s.append(self.ip.as_str());
        s.append(":");
        push_decimal(&mut s, self.port as u64);
        s
    }
}

} // verus!
