//! The node's configuration: defaults, command-line overrides, and the values it settles on.
use vstd::prelude::*;
use rand::Rng;

verus! {

/// Command-line arguments; every setting is optional.
#[derive(Debug, Clone)]
pub struct Args {
    pub port: Option<u16>,
    pub peer: Option<String>,
    pub database: Option<String>,
    pub name: Option<String>,
    pub hostname: Option<String>,
    pub config: Option<String>,
    pub noip_hostname: Option<String>,
    pub noip_username: Option<String>,
    pub noip_password: Option<String>,
    pub opendns_hostname: Option<String>,
    pub opendns_username: Option<String>,
    pub opendns_password: Option<String>,
    pub opendns_network: Option<String>,
    pub survival_mode: Option<bool>,
    pub log_level: Option<String>,
}

/// Configuration for the P2P network application.
#[derive(Debug, Clone)]
pub struct Config {
    /// Port to listen on for P2P communication
    pub port: Option<u16>,
    /// Initial peer to connect to
    pub peer: Option<String>,
    /// Database file name
    pub database: Option<String>,
    /// Custom name for HTTP access logs
    pub name: Option<String>,
    /// Hostname to use for the server (defaults to external IP)
    pub hostname: Option<String>,
    /// No-IP hostname (e.g., example.ddns.net)
    pub noip_hostname: Option<String>,
    /// No-IP username
    pub noip_username: Option<String>,
    /// No-IP password
    pub noip_password: Option<String>,
    /// OpenDNS hostname
    pub opendns_hostname: Option<String>,
    /// OpenDNS username
    pub opendns_username: Option<String>,
    /// OpenDNS password
    pub opendns_password: Option<String>,
    /// OpenDNS network label
    pub opendns_network: Option<String>,
    /// Enable post-apocalyptic survival mode
    pub survival_mode: Option<bool>,
    /// Log level (trace, debug, info, warn, error)
    pub log_level: Option<String>,
}

/// The first of two optional values that is present.
pub open spec fn prefer(first: Option<String>, second: Option<String>) -> Option<String> {
    match first {
        Some(v) => Some(v),
        None => second,
    }
}

fn clone_opt(o: &Option<String>) -> (r: Option<String>)
    ensures
        r == *o,
{
    match o {
        Some(s) => Some(s.clone()),
        None => None,
    }
}

fn or_opt(first: &Option<String>, second: &Option<String>) -> (r: Option<String>)
    ensures
        r == prefer(*first, *second),
{
    match first {
        Some(s) => Some(s.clone()),
        None => clone_opt(second),
    }
}

/// A random port in 10000..=65535: rand's `thread_rng().gen_range(10000..=65535)`, which draws
/// from the inclusive range.
#[verifier::external_body]
fn random_port() -> (p: u16)
    ensures
        10000 <= p <= 65535,
{
    rand::thread_rng().gen_range(10000..=65535)
}

/// What to do about the hostname when none is configured.
#[derive(Debug, Clone, Copy, PartialEq, Eq)]
pub enum HostnameAction {
    /// A hostname is configured already, or was taken from a dynamic DNS setting.
    Settled,
    /// No hostname can be derived from the configuration: look the machine's up.
    LookUp,
}

impl Config {
    /// The default configuration: a random port from 10000 to 65535, the database
    /// "p2p_network.db", the name "p2p_network", the log level "info", and nothing else.
    pub fn default_config() -> (c: Self)
        ensures
            c.port matches Some(p) && 10000 <= p <= 65535,
            c.peer is None,
            c.database matches Some(d) && d@ == "p2p_network.db"@,
            c.name matches Some(n) && n@ == "p2p_network"@,
            c.hostname is None,
            c.noip_hostname is None,
            c.noip_username is None,
            c.noip_password is None,
            c.opendns_hostname is None,
            c.opendns_username is None,
            c.opendns_password is None,
            c.opendns_network is None,
            c.survival_mode is None,
            c.log_level matches Some(l) && l@ == "info"@,
    {
        Self {
            port: Some(random_port()),
            peer: None,
            database: Some(String::from_str("p2p_network.db")),
            name: Some(String::from_str("p2p_network")),
            hostname: None,
            noip_hostname: None,
            noip_username: None,
            noip_password: None,
            opendns_hostname: None,
            opendns_username: None,
            opendns_password: None,
            opendns_network: None,
            survival_mode: None,
            log_level: Some(String::from_str("info")),
        }
    }

    /// Without a configured hostname, takes the No-IP hostname, else the OpenDNS one; when there
    /// is neither, the machine's hostname must be looked up.
    pub fn default_hostname(config: &mut Self) -> (action: HostnameAction)
        ensures
            old(config).hostname is Some ==> *final(config) == *old(config) && action is Settled,
            old(config).hostname is None && (old(config).noip_hostname is Some || old(config).opendns_hostname is Some)
                ==> action is Settled && final(config).hostname == prefer(old(config).noip_hostname, old(config).opendns_hostname)
                && *final(config) == (Config { hostname: final(config).hostname, ..*old(config) }),
            old(config).hostname is None && old(config).noip_hostname is None && old(config).opendns_hostname is None
                ==> action is LookUp && *final(config) == *old(config),
    {
        if config.hostname.is_none() {
            if config.noip_hostname.is_some() || config.opendns_hostname.is_some() {
                config.hostname = or_opt(&config.noip_hostname, &config.opendns_hostname);
                return HostnameAction::Settled;
            }
            return HostnameAction::LookUp;
        }
        HostnameAction::Settled
    }

    /// Merge with command line arguments, preferring argument values over configured ones:
    /// every field takes the argument's value when it is set, and keeps the configured one
    /// otherwise.
    pub fn merge_with_args(&self, args: &Args) -> (c: Self)
        ensures
            c.port == (match args.port { Some(p) => Some(p), None => self.port }),
            c.peer == prefer(args.peer, self.peer),
            c.database == prefer(args.database, self.database),
            c.name == prefer(args.name, self.name),
            c.hostname == prefer(args.hostname, self.hostname),
            c.noip_hostname == prefer(args.noip_hostname, self.noip_hostname),
            c.noip_username == prefer(args.noip_username, self.noip_username),
            c.noip_password == prefer(args.noip_password, self.noip_password),
            c.opendns_hostname == prefer(args.opendns_hostname, self.opendns_hostname),
            c.opendns_username == prefer(args.opendns_username, self.opendns_username),
            c.opendns_password == prefer(args.opendns_password, self.opendns_password),
            c.opendns_network == prefer(args.opendns_network, self.opendns_network),
            c.survival_mode == (match args.survival_mode { Some(b) => Some(b), None => self.survival_mode }),
            c.log_level == prefer(args.log_level, self.log_level),
    {
        Self {
            port: match args.port {
                Some(port) => Some(port),
                None => self.port,
            },
            peer: or_opt(&args.peer, &self.peer),
            database: or_opt(&args.database, &self.database),
            name: or_opt(&args.name, &self.name),
            hostname: or_opt(&args.hostname, &self.hostname),
            noip_hostname: or_opt(&args.noip_hostname, &self.noip_hostname),
            noip_username: or_opt(&args.noip_username, &self.noip_username),
            noip_password: or_opt(&args.noip_password, &self.noip_password),
            opendns_hostname: or_opt(&args.opendns_hostname, &self.opendns_hostname),
            opendns_username: or_opt(&args.opendns_username, &self.opendns_username),
            opendns_password: or_opt(&args.opendns_password, &self.opendns_password),
            opendns_network: or_opt(&args.opendns_network, &self.opendns_network),
            survival_mode: match args.survival_mode {
                Some(b) => Some(b),
                None => self.survival_mode,
            },
            log_level: or_opt(&args.log_level, &self.log_level),
        }
    }

    /// The log level, "info" when none is set.
    pub fn get_log_level(&self) -> (s: String)
        ensures
            s@ == match self.log_level { Some(l) => l@, None => "info"@ },
    {
        match &self.log_level {
            Some(l) => l.clone(),
            None => String::from_str("info"),
        }
    }

    /// The port number, 0 when none is set.
    pub fn get_port(&self) -> (p: u16)
        ensures
            p == match self.port { Some(p) => p, None => 0 },
    {
        match self.port {
            Some(p) => p,
            None => 0,
        }
    }

    /// The database name, empty when none is set.
    pub fn get_database(&self) -> (s: String)
        ensures
            s@ == match self.database { Some(d) => d@, None => Seq::empty() },
    {
        match &self.database {
            Some(d) => d.clone(),
            None => String::new(),
        }
    }

    /// The name, empty when none is set.
    pub fn get_name(&self) -> (s: String)
        ensures
            s@ == match self.name { Some(n) => n@, None => Seq::empty() },
    {
        match &self.name {
            Some(n) => n.clone(),
            None => String::new(),
        }
    }

    /// The hostname, if one is set.
    pub fn get_hostname(&self) -> (h: Option<String>)
        ensures
            h == self.hostname,
    {
        clone_opt(&self.hostname)
    }

    /// Sets the log level.
    pub fn update_log_level(&mut self, log_level: String)
        ensures
            final(self).log_level == Some(log_level),
            *final(self) == (Config { log_level: Some(log_level), ..*old(self) }),
    {
        self.log_level = Some(log_level);
    }
}

/// Merging arguments that set nothing keeps the whole configuration.
pub proof fn lemma_merge_with_empty_args(config: Config, args: Args, merged: Config)
    requires
        args.port is None && args.peer is None && args.database is None && args.name is None
            && args.hostname is None && args.noip_hostname is None && args.noip_username is None
            && args.noip_password is None && args.opendns_hostname is None && args.opendns_username is None
            && args.opendns_password is None && args.opendns_network is None && args.survival_mode is None
            && args.log_level is None,
        merged.port == (match args.port { Some(p) => Some(p), None => config.port }),
        merged.peer == prefer(args.peer, config.peer),
        merged.database == prefer(args.database, config.database),
        merged.name == prefer(args.name, config.name),
        merged.hostname == prefer(args.hostname, config.hostname),
        merged.noip_hostname == prefer(args.noip_hostname, config.noip_hostname),
        merged.noip_username == prefer(args.noip_username, config.noip_username),
        merged.noip_password == prefer(args.noip_password, config.noip_password),
        merged.opendns_hostname == prefer(args.opendns_hostname, config.opendns_hostname),
        merged.opendns_username == prefer(args.opendns_username, config.opendns_username),
        merged.opendns_password == prefer(args.opendns_password, config.opendns_password),
        merged.opendns_network == prefer(args.opendns_network, config.opendns_network),
        merged.survival_mode == (match args.survival_mode { Some(b) => Some(b), None => config.survival_mode }),
        merged.log_level == prefer(args.log_level, config.log_level),
    ensures
        merged == config,
{
}

} // verus!
