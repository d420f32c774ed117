use subversive::network::address::{get_peer_info, PeerInfo};
use subversive::network::dns::{reverse_lookup, IpAddress};
use subversive::network::health::{
    check_peer_health, handle_health_check_result, handle_health_check_result_at, PeerHealth, PeerTable,
};
use subversive::network::peer::{
    accept_initial_peer, add_peer, add_peer_at, add_peers, broadcast_targets, get_peers, merge_known_peers,
    plan_connect, remove_peer, update_peer_last_seen, ConnectDecision,
};

fn table() -> PeerTable<()> {
    PeerTable::new()
}

#[test]
fn test_get_peer_info() {
    // Test valid address
    let result = get_peer_info("127.0.0.1:8080").unwrap();
    assert_eq!(result.address, "127.0.0.1");
    assert_eq!(result.port, 8080);

    // Test invalid address
    let result = get_peer_info("invalid");
    assert!(result.is_err());
}

#[test]
fn test_get_peer_info_errors() {
    assert_eq!(get_peer_info("invalid").err().unwrap(), "Invalid address format");
    assert_eq!(get_peer_info("a:b:c").err().unwrap(), "Invalid address format");
    assert_eq!(get_peer_info("host:").err().unwrap(), "cannot parse integer from empty string");
    assert_eq!(get_peer_info("host:80a").err().unwrap(), "invalid digit found in string");
    assert_eq!(get_peer_info("host:-1").err().unwrap(), "invalid digit found in string");
    assert_eq!(get_peer_info("host:+").err().unwrap(), "invalid digit found in string");
    assert_eq!(get_peer_info("host:65536").err().unwrap(), "number too large to fit in target type");
    assert_eq!(get_peer_info("host:99999x").err().unwrap(), "number too large to fit in target type");
    let p = get_peer_info("host:+65535").unwrap();
    assert_eq!(p.port, 65535);
    let p = get_peer_info(":0").unwrap();
    assert_eq!(p.address, "");
    assert_eq!(p.port, 0);
    // The standard library agrees on the ports.
    for text in ["", "80a", "-1", "+", "65536", "99999x", "+65535", "0", "007"] {
        let ours = get_peer_info(&format!("h:{}", text)).map(|p| p.port);
        let std = text.parse::<u16>().map_err(|e| e.to_string());
        assert_eq!(ours, std);
    }
}

#[test]
fn test_reverse_lookup() {
    let v4 = |a, b, c, d| Ok(IpAddress::V4([a, b, c, d]));
    assert_eq!(reverse_lookup("127.0.0.1", v4(127, 0, 0, 1)).unwrap(), "localhost");
    assert_eq!(
        reverse_lookup("::1", Ok(IpAddress::V6([0, 0, 0, 0, 0, 0, 0, 1]))).unwrap(),
        "localhost"
    );
    assert_eq!(reverse_lookup("0.0.0.0", v4(0, 0, 0, 0)).unwrap(), "unspecified");
    assert_eq!(reverse_lookup("::", Ok(IpAddress::V6([0; 8]))).unwrap(), "unspecified");
    assert_eq!(reverse_lookup("255.255.255.255", v4(255, 255, 255, 255)).unwrap(), "broadcast");
    assert_eq!(reverse_lookup("224.0.0.1", v4(224, 0, 0, 1)).unwrap(), "multicast");
    assert_eq!(
        reverse_lookup("ff02::1", Ok(IpAddress::V6([0xff02, 0, 0, 0, 0, 0, 0, 1]))).unwrap(),
        "multicast"
    );
    assert_eq!(reverse_lookup("8.8.8.8", v4(8, 8, 8, 8)).unwrap(), "8.8.8.8");
    let result = reverse_lookup("invalid", Err("invalid IP address syntax".to_string()));
    assert_eq!(result.unwrap_err(), "Invalid IP address: invalid IP address syntax");
}

#[test]
fn test_handle_health_check_result() {
    let mut peers = table();
    peers.insert("test_peer".to_string(), PeerHealth::new((), "test_peer".to_string()));

    // Test successful health check
    handle_health_check_result(&mut peers, "test_peer", Ok::<(), String>(()), false);
    assert!(peers.contains_key("test_peer"));

    // Test failed health check
    handle_health_check_result(&mut peers, "test_peer", Err("Test error".to_string()), false);
    assert!(!peers.contains_key("test_peer"));
}

#[test]
fn test_health_check_survival_mode() {
    let mut peers = table();
    peers.insert("a".to_string(), PeerHealth { client: (), last_seen: 5 });
    assert!(!handle_health_check_result_at(&mut peers, "a", Ok::<(), ()>(()), true, 77));
    assert_eq!(peers.get("a").unwrap().last_seen, 77);
    assert!(handle_health_check_result_at(&mut peers, "a", Err(()), true, 78));
    assert!(peers.is_empty());
}

#[test]
fn test_check_peer_health() {
    let mut peers = table();
    peers.insert("127.0.0.1:8080".to_string(), PeerHealth { client: (), last_seen: 0 });
    assert!(check_peer_health(&peers, "127.0.0.1:8080").is_ok());
    assert_eq!(check_peer_health(&peers, "invalid:8080").unwrap_err(), "Peer not found");
}

#[test]
fn test_peer_health_record_failure() {
    let mut health = PeerHealth { client: (), last_seen: 10 };
    assert_eq!(health.get_last_seen(), 10);
    health.record_failure();
    assert_eq!(health.get_last_seen(), 0);
    health.update_last_seen();
    assert!(health.get_last_seen() > 0);
}

#[test]
fn test_add_peer() {
    let mut peers = table();
    let peer_addr = "http://localhost:8080".to_string();
    add_peer(&mut peers, peer_addr.clone(), (), None).unwrap();
    assert!(peers.contains_key(&peer_addr));
    // Adding the same peer again keeps one entry and its time.
    let seen = peers.get(&peer_addr).unwrap().last_seen;
    add_peer_at(&mut peers, peer_addr.clone(), (), Some(1), seen + 100).unwrap();
    assert_eq!(peers.len(), 1);
    assert_eq!(peers.get(&peer_addr).unwrap().last_seen, seen);
    // A given time stamps a new peer.
    add_peer(&mut peers, "x".to_string(), (), Some(12345)).unwrap();
    assert_eq!(peers.get("x").unwrap().last_seen, 12345);
}

#[test]
fn test_add_peers() {
    let mut peers = table();
    let peer_addrs = vec![
        "http://localhost:8080".to_string(),
        "http://localhost:8081".to_string(),
        "http://localhost:8082".to_string(),
    ];
    add_peers(&mut peers, peer_addrs.clone(), &|| ()).unwrap();
    assert_eq!(peers.len(), 3);
    for addr in peer_addrs {
        assert!(peers.contains_key(&addr));
    }
}

#[test]
fn test_get_peers() {
    let mut peers = table();
    let peer_addrs = vec!["http://localhost:8080".to_string(), "http://localhost:8081".to_string()];
    add_peers(&mut peers, peer_addrs.clone(), &|| ()).unwrap();
    let result = get_peers(&peers).unwrap();
    assert_eq!(result.len(), 2);
    for addr in peer_addrs {
        assert!(result.contains(&addr));
    }
}

#[test]
fn test_remove_peer() {
    let mut peers = table();
    let peer_addr = "http://localhost:8080".to_string();
    add_peer(&mut peers, peer_addr.clone(), (), None).unwrap();
    remove_peer(&mut peers, &peer_addr).unwrap();
    assert!(!peers.contains_key(&peer_addr));
    remove_peer(&mut peers, "http://nonexistent:8080").unwrap();
    assert_eq!(peers.len(), 0);
}

#[test]
fn test_update_peer_last_seen() {
    let mut peers = table();
    let peer_addr = "http://localhost:8080".to_string();
    add_peer(&mut peers, peer_addr.clone(), (), Some(1000)).unwrap();
    let initial_last_seen = peers.get(&peer_addr).unwrap().last_seen;
    update_peer_last_seen(&mut peers, &peer_addr);
    let new_last_seen = peers.get(&peer_addr).unwrap().last_seen;
    assert!(new_last_seen > initial_last_seen);
}

#[test]
fn test_update_peer_last_seen_non_existent() {
    let mut peers = table();
    update_peer_last_seen(&mut peers, "http://nonexistent:8080");
    assert_eq!(peers.len(), 0);
}

fn info(address: &str) -> PeerInfo {
    PeerInfo { address: address.to_string(), port: 8080 }
}

#[test]
fn test_connect_to_peer_no_peer_configured() {
    let peers = table();
    assert!(matches!(plan_connect(&peers, None, 100), ConnectDecision::NoPeerConfigured));
}

#[test]
fn test_connect_plan_recently_seen() {
    let mut peers = table();
    peers.insert("p".to_string(), PeerHealth { client: (), last_seen: 100 });
    assert!(matches!(plan_connect(&peers, Some("p".to_string()), 104), ConnectDecision::RecentlySeen));
    match plan_connect(&peers, Some("p".to_string()), 105) {
        ConnectDecision::Connect(a) => assert_eq!(a, "p"),
        _ => panic!("expected a connection"),
    }
    match plan_connect(&peers, Some("q".to_string()), 0) {
        ConnectDecision::Connect(a) => assert_eq!(a, "q"),
        _ => panic!("expected a connection"),
    }
}

#[test]
fn test_connect_to_peer_success() {
    let mut peers = table();
    let own_addr = "https://localhost:8080";
    let known = vec![info("https://peer1:8080"), info("https://peer2:8080")];
    merge_known_peers(&mut peers, "http://mock".to_string(), own_addr, known, (), &|| (), 50);
    assert_eq!(peers.len(), 3);
    assert!(peers.contains_key("http://mock"));
    assert!(peers.contains_key("https://peer1:8080"));
    assert!(peers.contains_key("https://peer2:8080"));
    assert_eq!(peers.get("https://peer2:8080").unwrap().last_seen, 50);
}

#[test]
fn test_connect_to_peer_skip_own_address() {
    let mut peers = table();
    let own_addr = "https://localhost:8080";
    let known = vec![info(own_addr), info("https://peer1:8080")];
    merge_known_peers(&mut peers, "http://mock".to_string(), own_addr, known, (), &|| (), 50);
    assert_eq!(peers.len(), 2);
    assert!(peers.contains_key("http://mock"));
    assert!(peers.contains_key("https://peer1:8080"));
    assert!(!peers.contains_key(own_addr));
}

#[test]
fn test_merge_keeps_known_peers() {
    let mut peers = table();
    peers.insert("http://mock".to_string(), PeerHealth { client: (), last_seen: 7 });
    peers.insert("a".to_string(), PeerHealth { client: (), last_seen: 8 });
    merge_known_peers(&mut peers, "http://mock".to_string(), "me", vec![info("a"), info("b"), info("b")], (), &|| (), 9);
    assert_eq!(peers.len(), 3);
    assert_eq!(peers.get("http://mock").unwrap().last_seen, 7);
    assert_eq!(peers.get("a").unwrap().last_seen, 8);
    assert_eq!(peers.get("b").unwrap().last_seen, 9);
    // The initial-peer variant replaces the initial peer's entry.
    accept_initial_peer(&mut peers, "http://mock".to_string(), "me", vec![], (), &|| (), 10);
    assert_eq!(peers.get("http://mock").unwrap().last_seen, 10);
}

#[test]
fn test_broadcast_targets() {
    let mut peers = table();
    for a in ["a", "b", "c"] {
        peers.insert(a.to_string(), PeerHealth { client: (), last_seen: 0 });
    }
    let mut targets = broadcast_targets(&peers, "b");
    targets.sort();
    assert_eq!(targets, vec!["a".to_string(), "c".to_string()]);
    assert_eq!(broadcast_targets(&peers, "z").len(), 3);
}

#[test]
fn test_connect_to_initial_peer_no_peer_configured() {
    let peers = table();
    assert!(matches!(plan_connect(&peers, None, 100), ConnectDecision::NoPeerConfigured));
    assert_eq!(peers.len(), 0);
}

#[test]
fn test_connect_to_initial_peer_success() {
    let mut peers = table();
    let peer_addr = "http://127.0.0.1:1234".to_string();
    let own_addr = "https://localhost:8080";
    let known = vec![info("https://peer1:8080"), info("https://peer2:8080")];
    accept_initial_peer(&mut peers, peer_addr.clone(), own_addr, known, (), &|| (), 1);
    assert_eq!(peers.len(), 3);
    assert!(peers.contains_key(&peer_addr));
    assert!(peers.contains_key("https://peer1:8080"));
    assert!(peers.contains_key("https://peer2:8080"));
}

#[test]
fn test_connect_to_initial_peer_skip_own_address() {
    let mut peers = table();
    let peer_addr = "http://127.0.0.1:1234".to_string();
    let own_addr = "https://localhost:8080";
    let known = vec![info(own_addr), info("https://peer1:8080")];
    accept_initial_peer(&mut peers, peer_addr.clone(), own_addr, known, (), &|| (), 1);
    assert_eq!(peers.len(), 2);
    assert!(peers.contains_key(&peer_addr));
    assert!(peers.contains_key("https://peer1:8080"));
    assert!(!peers.contains_key(own_addr));
}

#[test]
fn peer_test_add_peer() {
    let mut peers = table();
    let peer_addr = "http://localhost:8080".to_string();
    add_peer(&mut peers, peer_addr.clone(), (), None).unwrap();
    assert!(peers.contains_key(&peer_addr));
    add_peer(&mut peers, peer_addr.clone(), (), None).unwrap();
    assert_eq!(peers.len(), 1);
}

#[test]
fn peer_test_add_peers() {
    let mut peers = table();
    let peer_addrs = vec![
        "http://localhost:8080".to_string(),
        "http://localhost:8081".to_string(),
        "http://localhost:8082".to_string(),
    ];
    add_peers(&mut peers, peer_addrs.clone(), &|| ()).unwrap();
    assert_eq!(peers.len(), 3);
    for addr in peer_addrs {
        assert!(peers.contains_key(&addr));
    }
}

#[test]
fn peer_test_get_peers() {
    let mut peers = table();
    let peer_addrs = vec!["http://localhost:8080".to_string(), "http://localhost:8081".to_string()];
    add_peers(&mut peers, peer_addrs.clone(), &|| ()).unwrap();
    let result = get_peers(&peers).unwrap();
    assert_eq!(result.len(), 2);
    for addr in peer_addrs {
        assert!(result.contains(&addr));
    }
}

#[test]
fn peer_test_remove_peer() {
    let mut peers = table();
    let peer_addr = "http://localhost:8080".to_string();
    add_peer(&mut peers, peer_addr.clone(), (), None).unwrap();
    remove_peer(&mut peers, &peer_addr).unwrap();
    assert!(!peers.contains_key(&peer_addr));
    remove_peer(&mut peers, "http://nonexistent:8080").unwrap();
    assert_eq!(peers.len(), 0);
}

#[test]
fn peer_test_update_peer_last_seen() {
    let mut peers = table();
    let peer_addr = "http://localhost:8080".to_string();
    add_peer(&mut peers, peer_addr.clone(), (), Some(1)).unwrap();
    let initial_last_seen = peers.get(&peer_addr).unwrap().last_seen;
    update_peer_last_seen(&mut peers, &peer_addr);
    let new_last_seen = peers.get(&peer_addr).unwrap().last_seen;
    assert!(new_last_seen > initial_last_seen);
}

#[test]
fn peer_test_update_peer_last_seen_non_existent() {
    let mut peers = table();
    add_peer(&mut peers, "http://localhost:8080".to_string(), (), Some(7)).unwrap();
    update_peer_last_seen(&mut peers, "http://nonexistent:8080");
    assert_eq!(peers.len(), 1);
    assert_eq!(peers.get("http://localhost:8080").unwrap().last_seen, 7);
}
