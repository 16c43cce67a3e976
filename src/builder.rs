//! Assembly of the executor's configuration from the values a caller sets.
use vstd::prelude::*;
use crate::client_config::ClientConfig;
use crate::handler::opt_text;
use crate::model::XxlError;

verus! {

/// First port tried when no port is set.
pub const DEFAULT_START_PORT: u16 = 9900;

/// Values a caller sets before the executor starts; absent ones take
/// defaults when the configuration is built.
#[derive(Clone, Debug, Default)]
pub struct XxlClientBuilder {
    pub server_address: String,
    pub access_token: Option<String>,
    pub app_name: Option<String>,
    pub ip: Option<String>,
    pub port: Option<u16>,
    pub log_path: Option<String>,
    pub log_retention_days: Option<u32>,
    pub ssl_danger_accept_invalid_certs: Option<bool>,
}

/// The port a scan for a free port starts from: the set port, or the
/// default start when none (or zero) is set.
pub open spec fn scan_start(start_port: u16, option_port: Option<u16>) -> u16 {
    match option_port {
        Some(p) if p != 0 => p,
        _ => start_port,
    }
}

impl XxlClientBuilder {
    /// A builder for the coordinators at `server_address` (comma-separated).
    pub fn new(server_address: String) -> (r: XxlClientBuilder)
        ensures
            r == (XxlClientBuilder {
                server_address,
                access_token: None,
                app_name: None,
                ip: None,
                port: None,
                log_path: None,
                log_retention_days: None,
                ssl_danger_accept_invalid_certs: None,
            }),
    {
        XxlClientBuilder {
            server_address,
            access_token: None,
            app_name: None,
            ip: None,
            port: None,
            log_path: None,
            log_retention_days: None,
            ssl_danger_accept_invalid_certs: None,
        }
    }

    /// Sets the access token; it must match the coordinator's.
    pub fn set_access_token(self, access_token: String) -> (r: XxlClientBuilder)
        ensures
            r == (XxlClientBuilder { access_token: Some(access_token), ..self }),
    {
        XxlClientBuilder { access_token: Some(access_token), ..self }
    }

    pub fn set_app_name(self, app_name: String) -> (r: XxlClientBuilder)
        ensures
            r == (XxlClientBuilder { app_name: Some(app_name), ..self }),
    {
        XxlClientBuilder { app_name: Some(app_name), ..self }
    }

    pub fn set_ip(self, ip: String) -> (r: XxlClientBuilder)
        ensures
            r == (XxlClientBuilder { ip: Some(ip), ..self }),
    {
        XxlClientBuilder { ip: Some(ip), ..self }
    }

    pub fn set_port(self, port: u16) -> (r: XxlClientBuilder)
        ensures
            r == (XxlClientBuilder { port: Some(port), ..self }),
    {
        XxlClientBuilder { port: Some(port), ..self }
    }

    pub fn set_log_path(self, log_path: String) -> (r: XxlClientBuilder)
        ensures
            r == (XxlClientBuilder { log_path: Some(log_path), ..self }),
    {
        XxlClientBuilder { log_path: Some(log_path), ..self }
    }

    pub fn set_log_retention_days(self, log_retention_days: u32) -> (r: XxlClientBuilder)
        ensures
            r == (XxlClientBuilder { log_retention_days: Some(log_retention_days), ..self }),
    {
        XxlClientBuilder { log_retention_days: Some(log_retention_days), ..self }
    }

    pub fn set_ssl_danger_accept_invalid_certs(self, ssl_danger_accept_invalid_certs: bool) -> (r: XxlClientBuilder)
        ensures
            r == (XxlClientBuilder { ssl_danger_accept_invalid_certs: Some(ssl_danger_accept_invalid_certs), ..self }),
    {
        XxlClientBuilder { ssl_danger_accept_invalid_certs: Some(ssl_danger_accept_invalid_certs), ..self }
    }

    /// The port from which the scan for a free listen port starts.
    pub fn get_port(start_port: u16, option_port: Option<u16>) -> (r: u16)
        ensures
            r == scan_start(start_port, option_port),
    {
        let source_port: u16 = match option_port {
            Some(p) => p,
            None => 0,
        };
        if source_port == 0 {
            start_port
        } else {
            source_port
        }
    }

    /// The configuration, given the free port that was found (zero when
    /// none was) and the detected local ip. An empty coordinator list or no
    /// free port is a configuration error. Absent values default to: no
    /// token, app name `unknown`, the detected ip, no log path, zero
    /// retention days, and invalid certificates accepted.
    pub fn build_config(self, port: u16, detected_ip: String) -> (r: Result<ClientConfig, XxlError>)
        ensures
            (port == 0 || self.server_address@.len() == 0) <==> r is Err,
            r matches Err(e) ==> e == XxlError::ConfigError,
            r matches Ok(c) ==> {
                &&& c.server_address == self.server_address
                &&& c.access_token@ == opt_text(self.access_token)
                &&& c.app_name@ == (match self.app_name {
                    Some(a) => a@,
                    None => "unknown"@,
                })
                &&& c.ip@ == (match self.ip {
                    Some(i) => i@,
                    None => detected_ip@,
                })
                &&& c.port == port
                &&& c.log_path@ == opt_text(self.log_path)
                &&& c.log_retention_days == (match self.log_retention_days {
                    Some(d) => d,
                    None => 0,
                })
                &&& c.ssl_danger_accept_invalid_certs == (match self.ssl_danger_accept_invalid_certs {
                    Some(b) => b,
                    None => true,
                })
            },
    {
        if port == 0 || self.server_address.as_str().is_empty() {
            return Err(XxlError::ConfigError);
        }
        let access_token = match self.access_token {
            Some(t) => t,
            None => String::new(),
        };
        let app_name = match self.app_name {
            Some(a) => a,
            None => String::from_str("unknown"),
        };
        let ip = match self.ip {
            Some(i) => i,
            None => detected_ip,
        };
        let log_path = match self.log_path {
            Some(l) => l,
            None => String::new(),
        };
        let log_retention_days: u32 = match self.log_retention_days {
            Some(d) => d,
            None => 0,
        };
        let ssl = match self.ssl_danger_accept_invalid_certs {
            Some(b) => b,
            None => true,
        };
        Ok(ClientConfig {
            server_address: self.server_address,
            access_token,
            app_name,
            ip,
            port,
            log_path,
            log_retention_days,
            ssl_danger_accept_invalid_certs: ssl,
        })
    }
}

} // verus!
