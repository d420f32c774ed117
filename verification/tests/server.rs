use subversive::database::{MessageDoc, PeerDoc};
use subversive::message::{HeartbeatMessage, Message};
use subversive::network::address::PeerInfo;
use subversive::network::health::{PeerHealth, PeerTable};
use subversive::server::api::health::Health;
use subversive::server::api::messages::{GetMessagesQuery, Messages};
use subversive::server::api::peers::Peers;

fn table() -> PeerTable<()> {
    PeerTable::new()
}

#[test]
fn test_list_peers_empty() {
    let peers = table();
    assert!(Peers::list_peers(&peers).is_empty());
}

#[test]
fn test_list_peers_with_peers() {
    let mut peers = table();
    let peer_addr = "https://peer1:8080".to_string();
    peers.insert(peer_addr.clone(), PeerHealth::new((), peer_addr.clone()));
    let list = Peers::list_peers(&peers);
    assert_eq!(list.len(), 1);
    assert_eq!(list[0].address, peer_addr);
    assert_eq!(list[0].port, 0);
}

#[test]
fn test_add_peer_empty_address() {
    let mut peers = table();
    let peer = PeerInfo { address: "".to_string(), port: 0 };
    let err = Peers::add_peer(&mut peers, peer, (), 1).unwrap_err();
    assert!(err.contains("cannot be empty"));
    assert!(peers.is_empty());
}

#[test]
fn test_add_peer_success() {
    let mut peers = table();
    let peer_addr = "http://peer1:8080".to_string();
    let peer = PeerInfo { address: peer_addr.clone(), port: 0 };
    let (kept, list) = Peers::add_peer(&mut peers, peer, (), 1).unwrap();
    assert_eq!(peers.len(), 1);
    assert!(peers.contains_key(&peer_addr.replace("http://", "https://")));
    assert_eq!(kept, "https://peer1:8080");
    assert_eq!(list.len(), 1);
    assert_eq!(list[0].address, peer_addr.replace("http://", "https://"));
}

#[test]
fn test_add_peer_already_https() {
    let mut peers = table();
    let peer_addr = "https://peer1:8080".to_string();
    let peer = PeerInfo { address: peer_addr.clone(), port: 0 };
    let (_, list) = Peers::add_peer(&mut peers, peer, (), 1).unwrap();
    assert_eq!(peers.len(), 1);
    assert!(peers.contains_key(&peer_addr));
    assert_eq!(list.len(), 1);
    assert_eq!(list[0].address, peer_addr);
}

#[test]
fn test_add_peer_replaces_every_http_scheme() {
    let mut peers = table();
    let peer = PeerInfo { address: "http://a/http://b".to_string(), port: 0 };
    let (kept, _) = Peers::add_peer(&mut peers, peer, (), 1).unwrap();
    assert_eq!(kept, "https://a/https://b");
    let peer = PeerInfo { address: "x http://b".to_string(), port: 0 };
    let (kept, _) = Peers::add_peer(&mut peers, peer, (), 1).unwrap();
    assert_eq!(kept, "x http://b");
}

#[test]
fn test_get_active_peers() {
    let docs = vec![PeerDoc { address: "https://peer1:8080".to_string(), last_seen: 5 }];
    let infos = Peers::get_peers(docs.clone());
    assert_eq!(infos.len(), 1);
    assert_eq!(infos[0].address, "https://peer1:8080");
    assert!(Peers::register_peer(false, docs.clone()).is_empty());
    assert_eq!(Peers::register_peer(true, docs)[0].address, "https://peer1:8080");
    assert_eq!(Peers::active_since(10_000), 6_400);
}

#[test]
fn test_get_recent_messages() {
    let since = Messages::since(&GetMessagesQuery { since: None }, 10_000);
    assert_eq!(since, 6_400);
    assert_eq!(Messages::since(&GetMessagesQuery { since: Some(3) }, 10_000), 3);
    let docs = vec![MessageDoc { content: "Test message".to_string(), source: "test".to_string(), timestamp: 1 }];
    let messages = Messages::get_recent_messages(docs);
    assert_eq!(messages.len(), 1);
    match &messages[0] {
        Message::Chat { content } => assert_eq!(content, "Test message"),
        _ => panic!("Expected Chat message"),
    }
}

#[test]
fn test_send_message() {
    let chat = Message::Chat { content: "Test message".to_string() };
    assert_eq!(Messages::send_message(&chat), Some("Test message".to_string()));
    let other = Message::NewPeer { addr: "x".to_string() };
    assert_eq!(Messages::send_message(&other), None);
}

#[test]
fn test_heartbeat() {
    let mut peers = table();
    let hb = HeartbeatMessage { address: "a".to_string(), known_peers: vec!["b".to_string()] };
    assert_eq!(Health::heartbeat(&mut peers, hb.clone(), &|| (), 5), Err("Peer not found"));
    assert!(peers.is_empty());
    peers.insert("a".to_string(), PeerHealth { client: (), last_seen: 1 });
    assert_eq!(Health::heartbeat(&mut peers, hb, &|| (), 5), Ok("Heartbeat acknowledged"));
    assert_eq!(peers.len(), 2);
    assert_eq!(peers.get("b").unwrap().last_seen, 5);
    assert_eq!(peers.get("a").unwrap().last_seen, 1);
}

#[test]
fn test_list_peers() {
    let peers = table();
    assert!(Peers::list_peers(&peers).is_empty());
}

#[test]
fn test_register_peer() {
    let peer_addr = "https://peer1:8080".to_string();
    let saved = vec![PeerDoc { address: peer_addr.clone(), last_seen: 100 }];
    let peers = Peers::register_peer(true, saved);
    assert_eq!(peers.len(), 1);
    assert_eq!(peers[0].address, peer_addr);
    assert_eq!(peers[0].port, 0);
}

#[test]
fn test_get_recent_messages_empty() {
    let query = GetMessagesQuery { since: None };
    assert_eq!(Messages::since(&query, 7_200), 3_600);
    assert!(Messages::get_recent_messages(Vec::new()).is_empty());
}

#[test]
fn test_get_recent_messages_with_message() {
    let docs = vec![MessageDoc { content: "Test message".to_string(), source: "test".to_string(), timestamp: 9 }];
    let messages = Messages::get_recent_messages(docs);
    assert_eq!(messages.len(), 1);
    if let Message::Chat { content } = &messages[0] {
        assert_eq!(content, "Test message");
    } else {
        panic!("Expected Chat message");
    }
}

#[test]
fn test_get_recent_messages_with_timestamp() {
    let timestamp = 1_000;
    assert_eq!(Messages::since(&GetMessagesQuery { since: Some(timestamp + 1) }, 50), timestamp + 1);
    assert_eq!(Messages::since(&GetMessagesQuery { since: Some(timestamp - 1) }, 50), timestamp - 1);
}

#[test]
fn test_health_check_summary() {
    let mut peers = table();
    assert_eq!(Health::check(&peers), "Healthy with 0 active peers out of 0");
    peers.insert("a".to_string(), PeerHealth { client: (), last_seen: 17 });
    peers.insert("b".to_string(), PeerHealth { client: (), last_seen: 0 });
    peers.insert("c".to_string(), PeerHealth { client: (), last_seen: -3 });
    assert_eq!(Health::check(&peers), "Healthy with 2 active peers out of 3");
}
