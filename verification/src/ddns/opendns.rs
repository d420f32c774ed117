//! The OpenDNS dynamic DNS provider.
use vstd::prelude::*;
use crate::ddns::{Config, DdnsProvider, DdnsProviderConfig};
use crate::text::push_str;

verus! {

/// OpenDNS account settings.
#[derive(Debug, Clone)]
pub struct OpenDnsProvider {
    pub hostname: String,
    pub username: String,
    pub password: String,
    pub network: String,
}

impl OpenDnsProvider {
    /// Settings for `hostname` on network `network`, authenticated as `username` with `password`.
    pub fn new(hostname: String, username: String, password: String, network: String) -> (p: Self)
        ensures
            p.hostname == hostname,
            p.username == username,
            p.password == password,
            p.network == network,
    {
        Self { hostname, username, password, network }
    }

    /// The update request's address: OpenDNS's update service with the hostname and network.
    pub fn update_url(&self) -> (s: String)
        ensures
            s@ == "https://updates.opendns.com/nic/update?hostname="@ + self.hostname@ + "&network="@
                + self.network@,
    {
        let mut s = String::new();
        push_str(&mut s, "https://updates.opendns.com/nic/update?hostname=");
        push_str(&mut s, self.hostname.as_str());
        push_str(&mut s, "&network=");
        push_str(&mut s, self.network.as_str());
        assert(s@ =~= "https://updates.opendns.com/nic/update?hostname="@ + self.hostname@ + "&network="@
            + self.network@);
        s
    }
}

impl DdnsProviderConfig for OpenDnsProvider {
    /// OpenDNS, when the configuration holds its hostname, username, password and network.
    fn try_from_config(config: &Config) -> (r: Option<DdnsProvider>)
        ensures
            match (config.opendns_hostname, config.opendns_username, config.opendns_password, config.opendns_network) {
                (Some(h), Some(u), Some(p), Some(n)) => r matches Some(DdnsProvider::OpenDns(o))
                    && o.hostname == h && o.username == u && o.password == p && o.network == n,
                _ => r is None,
            },
    {
        match (&config.opendns_hostname, &config.opendns_username, &config.opendns_password, &config.opendns_network) {
            (Some(hostname), Some(username), Some(password), Some(network)) => Some(
                DdnsProvider::OpenDns(
                    OpenDnsProvider::new(hostname.clone(), username.clone(), password.clone(), network.clone()),
                ),
            ),
            _ => None,
        }
    }
}

} // verus!
