use subversive::ddns::opendns::OpenDnsProvider;
use subversive::ddns::noip::{noip_update_url, NoIpProvider};
use subversive::ddns::{basic_auth_header, Config, DdnsProvider, DdnsProviderConfig};

#[test]
fn test_opendns_provider_from_config() {
    let mut config = Config::default();
    assert!(OpenDnsProvider::try_from_config(&config).is_none());

    config.opendns_hostname = Some("example.com".to_string());
    config.opendns_username = Some("user".to_string());
    config.opendns_password = Some("pass".to_string());
    config.opendns_network = Some("home".to_string());

    let provider = OpenDnsProvider::try_from_config(&config).unwrap();
    match provider {
        DdnsProvider::OpenDns(p) => {
            assert_eq!(p.hostname, "example.com");
            assert_eq!(p.username, "user");
            assert_eq!(p.password, "pass");
            assert_eq!(p.network, "home");
        }
        DdnsProvider::NoIp(_no_ip_provider) => panic!("expected OpenDNS"),
    }
}

#[test]
fn test_noip_provider_from_config() {
    let mut config = Config::default();
    config.noip_hostname = Some("example.ddns.net".to_string());
    config.noip_username = Some("user".to_string());
    assert!(NoIpProvider::try_from_config(&config).is_none());
    config.noip_password = Some("pass".to_string());
    match NoIpProvider::try_from_config(&config).unwrap() {
        DdnsProvider::NoIp(p) => {
            assert_eq!(p.hostname, "example.ddns.net");
            assert_eq!(p.username, "user");
            assert_eq!(p.password, "pass");
        }
        DdnsProvider::OpenDns(_) => panic!("expected No-IP"),
    }
}

#[test]
fn test_provider_names() {
    let noip = DdnsProvider::NoIp(NoIpProvider::new("h".into(), "u".into(), "p".into()));
    let opendns = DdnsProvider::OpenDns(OpenDnsProvider::new("h".into(), "u".into(), "p".into(), "n".into()));
    assert_eq!(noip.get_provider_name(), "No-IP");
    assert_eq!(opendns.get_provider_name(), "OpenDNS");
}

#[test]
fn test_basic_auth_header() {
    assert_eq!(basic_auth_header("user", "pass"), "Basic dXNlcjpwYXNz");
    assert_eq!(basic_auth_header("", ""), "Basic Og==");
    assert_eq!(basic_auth_header("a", ""), "Basic YTo=");
}

#[test]
fn test_update_urls() {
    let p = OpenDnsProvider::new("example.com".into(), "user".into(), "pass".into(), "home".into());
    assert_eq!(
        p.update_url(),
        "https://updates.opendns.com/nic/update?hostname=example.com&network=home"
    );
    assert_eq!(noip_update_url(), "https://dynupdate.no-ip.com/nic/update");
}
