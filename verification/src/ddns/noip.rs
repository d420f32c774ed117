//! The No-IP dynamic DNS provider.
use vstd::prelude::*;
use crate::ddns::{Config, DdnsProvider, DdnsProviderConfig};

verus! {

/// No-IP account settings.
#[derive(Debug, Clone)]
pub struct NoIpProvider {
    pub hostname: String,
    pub username: String,
    pub password: String,
}

/// The address of No-IP's update service; the hostname goes in the query.
pub fn noip_update_url() -> (s: &'static str)
    ensures
        s@ == "https://dynupdate.no-ip.com/nic/update"@,
{
    "https://dynupdate.no-ip.com/nic/update"
}

impl NoIpProvider {
    /// Settings for `hostname`, authenticated as `username` with `password`.
    pub fn new(hostname: String, username: String, password: String) -> (p: Self)
        ensures
            p.hostname == hostname,
            p.username == username,
            p.password == password,
    {
        Self { hostname, username, password }
    }
}

impl DdnsProviderConfig for NoIpProvider {
    /// No-IP, when the configuration holds its hostname, username and password.
    fn try_from_config(config: &Config) -> (r: Option<DdnsProvider>)
        ensures
            match (config.noip_hostname, config.noip_username, config.noip_password) {
                (Some(h), Some(u), Some(p)) => r matches Some(DdnsProvider::NoIp(n))
                    && n.hostname == h && n.username == u && n.password == p,
                _ => r is None,
            },
    {
        match (&config.noip_hostname, &config.noip_username, &config.noip_password) {
            (Some(hostname), Some(username), Some(password)) => Some(
                DdnsProvider::NoIp(Self::new(hostname.clone(), username.clone(), password.clone())),
            ),
            _ => None,
        }
    }
}

} // verus!
