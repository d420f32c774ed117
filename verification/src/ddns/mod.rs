//! Dynamic DNS providers: which one the configuration names, and what an update request carries.
pub mod noip;
pub mod opendns;

use vstd::prelude::*;
use crate::text::{concat, push_str};
use vstd::utf8::encode_utf8;
use base64::Engine;

pub use noip::NoIpProvider;
pub use opendns::OpenDnsProvider;

verus! {

/// A configured dynamic DNS provider.
#[derive(Debug, Clone)]
pub enum DdnsProvider {
    OpenDns(OpenDnsProvider),
    NoIp(NoIpProvider),
}

/// A provider that can be built from the configuration when it holds all the provider needs.
pub trait DdnsProviderConfig {
    fn try_from_config(config: &Config) -> Option<DdnsProvider>;
}

/// The dynamic DNS settings.
#[derive(Debug, Clone)]
pub struct Config {
    pub opendns_hostname: Option<String>,
    pub opendns_username: Option<String>,
    pub opendns_password: Option<String>,
    pub opendns_network: Option<String>,
    pub noip_hostname: Option<String>,
    pub noip_username: Option<String>,
    pub noip_password: Option<String>,
}

impl Default for Config {
    fn default() -> (c: Self)
        ensures
            c.opendns_hostname is None && c.opendns_username is None && c.opendns_password is None
                && c.opendns_network is None && c.noip_hostname is None && c.noip_username is None
                && c.noip_password is None,
    {
        Config {
            opendns_hostname: None,
            opendns_username: None,
            opendns_password: None,
            opendns_network: None,
            noip_hostname: None,
            noip_username: None,
            noip_password: None,
        }
    }
}

impl DdnsProvider {
    /// The provider's display name.
    pub fn get_provider_name(&self) -> (s: &'static str)
        ensures
            self is NoIp ==> s@ == "No-IP"@,
            self is OpenDns ==> s@ == "OpenDNS"@,
    {
        match self {
            DdnsProvider::NoIp(_) => "No-IP",
            DdnsProvider::OpenDns(_) => "OpenDNS",
        }
    }
}

/// The base64 digit of a 6-bit value (standard alphabet).
pub open spec fn base64_digit(v: int) -> char {
    if v < 26 {
        ((v + 65) as u8) as char
    } else if v < 52 {
        ((v + 71) as u8) as char
    } else if v < 62 {
        ((v - 4) as u8) as char
    } else if v == 62 {
        '+'
    } else {
        '/'
    }
}

/// Standard base64 with padding: each 3 bytes become 4 digits, and a last group of 1 or 2 bytes
/// becomes 2 or 3 digits followed by '=' padding.
pub open spec fn base64_standard(b: Seq<u8>) -> Seq<char>
    decreases b.len(),
{
    if b.len() == 0 {
        Seq::empty()
    } else if b.len() == 1 {
        seq![base64_digit((b[0] / 4) as int), base64_digit(((b[0] % 4) * 16) as int), '=', '=']
    } else if b.len() == 2 {
        seq![
            base64_digit((b[0] / 4) as int),
            base64_digit(((b[0] % 4) * 16 + b[1] / 16) as int),
            base64_digit(((b[1] % 16) * 4) as int),
            '=',
        ]
    } else {
        seq![
            base64_digit((b[0] / 4) as int),
            base64_digit(((b[0] % 4) * 16 + b[1] / 16) as int),
            base64_digit(((b[1] % 16) * 4 + b[2] / 64) as int),
            base64_digit((b[2] % 64) as int),
        ] + base64_standard(b.skip(3))
    }
}

/// `base64::engine::general_purpose::STANDARD.encode(bytes)`: standard base64 with padding.
/// The engine panics when the encoded length overflows `usize`, so inputs are bounded.
#[verifier::external_body]
fn encode_base64(bytes: &[u8]) -> (s: String)
    requires
        bytes@.len() <= usize::MAX / 2,
    ensures
        s@ == base64_standard(bytes@),
{
    base64::engine::general_purpose::STANDARD.encode(bytes)
}

/// The HTTP basic authorization header value: "Basic " and the base64 of "username:password".
pub fn basic_auth_header(username: &str, password: &str) -> (s: String)
    requires
        encode_utf8(username@ + seq![':'] + password@).len() <= usize::MAX / 2,
    ensures
        s@ == "Basic "@ + base64_standard(encode_utf8(username@ + seq![':'] + password@)),
{
    let mut auth = String::new();
    push_str(&mut auth, username);
    auth.push(':');
    push_str(&mut auth, password);
    assert(auth@ =~= username@ + seq![':'] + password@);
    let encoded = encode_base64(auth.as_str().as_bytes());
    concat("Basic ", encoded.as_str())
}

} // verus!
