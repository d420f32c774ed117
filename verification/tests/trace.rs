use subversive::trace::event::TraceId as TraceEvent;
use subversive::trace::format::common::{format_msg_id as format_event_id, format_peer_status_message, format_process_id};
use subversive::trace::format::network::format_network_scan_category;
use subversive::trace::format::peer_connection::format_peer_connection_category;
use subversive::trace::format::peer_discovery::format_peer_discovery_category;
use subversive::trace::format::peer_management::format_peer_management_category;
use subversive::trace::format::startup::{format_startup_category, format_startup_message, format_startup_message_simple};
use subversive::trace::format::format_msg_id;
use subversive::trace::generate_trace_id;
use subversive::trace::types::network::NetworkScan;
use subversive::trace::types::peer::{PeerKnownCount, PeerResponse};
use subversive::trace::types::startup::StartupInit;
use subversive::trace::types::TraceId;
use subversive::tui::color::{bg_red, bold, bright_cyan, green, magenta, red, strikethrough, yellow};

#[test]
fn test_colors() {
    assert_eq!(red("x"), "\x1b[31mx\x1b[0m");
    assert_eq!(green("ok"), "\x1b[32mok\x1b[0m");
    assert_eq!(bright_cyan(""), "\x1b[96m\x1b[0m");
    assert_eq!(bg_red("a"), "\x1b[41ma\x1b[0m");
    assert_eq!(bold("b"), "\x1b[1mb\x1b[0m");
    assert_eq!(strikethrough("s"), "\x1b[9ms\x1b[0m");
}

#[test]
fn test_trace_ids() {
    let t = TraceId::PeerConnectError { peer: "p".to_string(), error: "e".to_string() };
    assert_eq!(t.id(), 0x001A);
    assert_eq!(t.name(), "PeerConnectError");
    assert_eq!(
        t.message(),
        format!("{} {} {} {}", green("Failed to connect to peer:"), magenta("p"), green("-"), magenta("e"))
    );
    assert_eq!(format_msg_id(&t), format!("[{}]", yellow("PeerConnectError")));
    let t = TraceId::StartupInit { port: 8080 };
    assert_eq!(t.message(), format!("{} {}", green("Starting subversive node on port"), magenta("8080")));
    let t = TraceId::PeerKnownCount { peer: "p".to_string(), count: 12 };
    assert_eq!(
        t.message(),
        format!("{} {} {} {}", green("Received"), magenta("12"), green("known peers from"), magenta("p"))
    );
    let t = TraceId::PeerNotFound { peer: "q".to_string() };
    assert_eq!(t.message(), format!("{} {} {}", green("Peer"), magenta("q"), green("not found")));
}

#[test]
fn test_categories() {
    let scan = TraceId::NetworkScan;
    assert_eq!(format_network_scan_category(&scan), Some(green("Starting network scan")));
    assert_eq!(format_startup_category(&scan), None);
    let connect = TraceId::PeerConnect { peer: "p".to_string() };
    assert_eq!(format_peer_connection_category(&connect), Some("Connecting to initial peer: p".to_string()));
    let init = TraceId::PeerInit { peer: "p".to_string(), source: "s".to_string() };
    assert_eq!(format_peer_connection_category(&init), Some("Adding initial peer to peer list: p from s".to_string()));
    let count = TraceId::PeerKnownCount { peer: "p".to_string(), count: 3 };
    assert_eq!(format_peer_discovery_category(&count), Some("Peer p knows 3 peers".to_string()));
    let removed = TraceId::PeerRemoved { peer: "p".to_string() };
    assert_eq!(format_peer_management_category(&removed), Some("Removed peer: p".to_string()));
    let missing = TraceId::PeerNotFound { peer: "p".to_string() };
    assert_eq!(format_peer_management_category(&missing), Some("Could not find peer: p".to_string()));
    assert_eq!(format_peer_status_message("status", "peer"), "status: peer");
    assert_eq!(format_startup_message(&80), format!("{} {}", magenta("Starting subversive on port"), green("80")));
    assert_eq!(
        format_startup_message_simple(),
        green("Starting subversive poc going to run multiple peers at once to test the network")
    );
}

#[test]
fn test_trace_events() {
    let scan = NetworkScan { process: "main".to_string(), addr: "10.0.0.1".to_string() };
    assert_eq!(scan.id(), 0x0102);
    assert_eq!(scan.message(), format!("{} {}", green("Scanning network at"), "10.0.0.1"));
    assert_eq!(format_event_id(&scan), format!("[{}]", yellow("NetworkScan")));
    assert_eq!(format_process_id(&scan), "[\x1b[34mmain\x1b[0m]");
    let r = PeerResponse { addr: "a".to_string(), status: "200 OK".to_string() };
    assert_eq!(r.message(), format!("{} {} - {}", yellow("Peer response from"), "a", "200 OK"));
    let k = PeerKnownCount { addr: "a".to_string(), count: 4 };
    assert_eq!(k.message(), format!("{} {} has {} known peers", green("Peer"), "a", 4));
    let s = StartupInit { port: 9 };
    assert_eq!(s.message(), format!("{} {}", magenta("Starting subversive on port"), green("9")));
    assert_eq!(s.process(), "");
}

#[test]
fn test_generate_trace_id() {
    let mut counter = 0u64;
    assert_eq!(generate_trace_id(&mut counter), "[0000000000000000]");
    assert_eq!(counter, 1);
    let mut counter = 0xabcu64;
    assert_eq!(generate_trace_id(&mut counter), format!("[{:016x}]", 0xabc));
    let mut counter = u64::MAX;
    assert_eq!(generate_trace_id(&mut counter), "[ffffffffffffffff]");
    assert_eq!(counter, 0);
}
