//! How the peer table grows and shrinks: adding, removing, refreshing, and merging the peers
//! that another node reports.
use vstd::prelude::*;
use crate::clock::{clock_reading, read_clock};
use crate::network::address::PeerInfo;
use crate::network::health::{mark_seen_at, PeerHealth, PeerTable};
use crate::text::{str_eq, string_views};

verus! {

/// Add a peer at time `now` unless it is already known. A new peer is last seen at `timestamp`
/// when one is given, else `now`.
pub fn add_peer_at<C>(
    peers: &mut PeerTable<C>,
    address: String,
    client: C,
    timestamp: Option<i64>,
    now: i64,
) -> (r: Result<(), String>)
    requires
        old(peers).wf(),
    ensures
        final(peers).wf(),
        r is Ok,
        old(peers)@.dom().contains(address@) ==> final(peers)@ == old(peers)@,
        !old(peers)@.dom().contains(address@) ==> final(peers)@ == old(peers)@.insert(
            address@,
            PeerHealth {
                client,
                last_seen: match timestamp {
                    Some(t) => t,
                    None => now,
                },
            },
        ),
{
    if !peers.contains_key(address.as_str()) {
        let last_seen = match timestamp {
            Some(t) => t,
            None => now,
        };
        peers.insert(address, PeerHealth { client, last_seen });
    }
    Ok(())
}

/// Add a new peer to the network unless it is already known.
pub fn add_peer<C>(
    peers: &mut PeerTable<C>,
    address: String,
    client: C,
    timestamp: Option<i64>,
) -> (r: Result<(), String>)
    requires
        old(peers).wf(),
    ensures
        final(peers).wf(),
        r is Ok,
        old(peers)@.dom().contains(address@) ==> final(peers)@ == old(peers)@,
        !old(peers)@.dom().contains(address@) ==> {
            &&& final(peers)@.dom() == old(peers)@.dom().insert(address@)
            &&& forall|k: Seq<char>| #[trigger] old(peers)@.dom().contains(k) ==> final(peers)@[k] == old(peers)@[k]
            &&& final(peers)@[address@].client == client
            &&& timestamp matches Some(t) ==> final(peers)@[address@].last_seen == t
            &&& timestamp is None ==> clock_reading(final(peers)@[address@].last_seen)
        },
{
    let now = read_clock();
    let r = add_peer_at(peers, address, client, timestamp, now);
    proof {
        if !old(peers)@.dom().contains(address@) {
            assert(final(peers)@.dom() =~= old(peers)@.dom().insert(address@));
        }
    }
    r
}

/// Add multiple peers to the network, each with a client of its own.
pub fn add_peers<C, F: Fn() -> C>(
    peers: &mut PeerTable<C>,
    peer_addrs: Vec<String>,
    make_client: &F,
) -> (r: Result<(), String>)
    requires
        old(peers).wf(),
        make_client.requires(()),
    ensures
        final(peers).wf(),
        r is Ok,
        forall|k: Seq<char>| #[trigger] final(peers)@.dom().contains(k)
            <==> (old(peers)@.dom().contains(k) || string_views(peer_addrs@).contains(k)),
        forall|k: Seq<char>| #[trigger] old(peers)@.dom().contains(k) ==> final(peers)@[k] == old(peers)@[k],
        forall|k: Seq<char>| #[trigger] final(peers)@.dom().contains(k) && !old(peers)@.dom().contains(k)
            ==> clock_reading(final(peers)@[k].last_seen),
{
    let mut i: usize = 0;
    let ghost addrs = string_views(peer_addrs@);
    while i < peer_addrs.len()
        invariant
            peers.wf(),
            i <= peer_addrs@.len(),
            addrs == string_views(peer_addrs@),
            make_client.requires(()),
            forall|k: Seq<char>| #[trigger] peers@.dom().contains(k)
                <==> (old(peers)@.dom().contains(k) || addrs.subrange(0, i as int).contains(k)),
            forall|k: Seq<char>| #[trigger] old(peers)@.dom().contains(k) ==> peers@[k] == old(peers)@[k],
            forall|k: Seq<char>| #[trigger] peers@.dom().contains(k) && !old(peers)@.dom().contains(k)
                ==> clock_reading(peers@[k].last_seen),
        decreases peer_addrs@.len() - i,
    {
        let client = make_client();
        let ghost pre = peers@;
        let _ = add_peer(peers, peer_addrs[i].clone(), client, None);
        proof {
            assert forall|k: Seq<char>| #[trigger] old(peers)@.dom().contains(k)
                implies peers@[k] == old(peers)@[k] by {
                assert(pre.dom().contains(k));
            }
            assert forall|k: Seq<char>| #[trigger] peers@.dom().contains(k) && !old(peers)@.dom().contains(k)
                implies clock_reading(peers@[k].last_seen) by {
                if pre.dom().contains(k) && k != peer_addrs@[i as int]@ {
                    assert(peers@[k] == pre[k]);
                }
            }
            assert forall|k: Seq<char>| addrs.subrange(0, i + 1).contains(k)
                <==> (addrs.subrange(0, i as int).contains(k) || k == addrs[i as int]) by {
                if addrs.subrange(0, i + 1).contains(k) {
                    let j = choose|j: int| 0 <= j < i + 1 && #[trigger] addrs.subrange(0, i + 1)[j] == k;
                    if j < i {
                        assert(addrs.subrange(0, i as int)[j] == k);
                    }
                }
                if addrs.subrange(0, i as int).contains(k) {
                    let j = choose|j: int| 0 <= j < i && #[trigger] addrs.subrange(0, i as int)[j] == k;
                    assert(addrs.subrange(0, i + 1)[j] == k);
                }
                if k == addrs[i as int] {
                    assert(addrs.subrange(0, i + 1)[i as int] == k);
                }
            }
        }
        i = i + 1;
    }
    assert(addrs.subrange(0, i as int) =~= addrs);
    Ok(())
}

/// Get all known peers, each once.
pub fn get_peers<C>(peers: &PeerTable<C>) -> (r: Result<Vec<String>, String>)
    requires
        peers.wf(),
    ensures
        r is Ok,
        string_views(r->Ok_0@).no_duplicates(),
        string_views(r->Ok_0@).to_set() == peers@.dom(),
{
    Ok(peers.keys())
}

/// Remove a peer from the network; removing an unknown peer changes nothing.
pub fn remove_peer<C>(peers: &mut PeerTable<C>, address: &str) -> (r: Result<(), String>)
    requires
        old(peers).wf(),
    ensures
        final(peers).wf(),
        r is Ok,
        final(peers)@ == old(peers)@.remove(address@),
{
    peers.remove(address);
    Ok(())
}

/// Update a known peer's last seen timestamp to now; an unknown peer changes nothing.
pub fn update_peer_last_seen<C>(peers: &mut PeerTable<C>, peer_addr: &str)
    requires
        old(peers).wf(),
    ensures
        final(peers).wf(),
        final(peers)@.dom() == old(peers)@.dom(),
        forall|k: Seq<char>| k != peer_addr@ && #[trigger] old(peers)@.dom().contains(k)
            ==> final(peers)@[k] == old(peers)@[k],
        old(peers)@.dom().contains(peer_addr@) ==> final(peers)@[peer_addr@].client == old(peers)@[peer_addr@].client,
        old(peers)@.dom().contains(peer_addr@) ==> clock_reading(final(peers)@[peer_addr@].last_seen),
{
    let now = read_clock();
    mark_seen_at(peers, peer_addr, now);
    assert(final(peers)@.dom() =~= old(peers)@.dom());
}

/// What to do about the initial peer before contacting it.
#[derive(Debug)]
pub enum ConnectDecision {
    /// No initial peer is configured.
    NoPeerConfigured,
    /// The peer was seen less than 5 seconds ago.
    RecentlySeen,
    /// Send the connection request to this peer.
    Connect(String),
}

/// Decides whether to contact `initial_peer` at time `now`: only a known peer seen less than 5
/// seconds ago is skipped.
pub fn plan_connect<C>(peers: &PeerTable<C>, initial_peer: Option<String>, now: i64) -> (d: ConnectDecision)
    requires
        peers.wf(),
    ensures
        initial_peer is None ==> d is NoPeerConfigured,
        initial_peer matches Some(addr) ==> {
            if peers@.dom().contains(addr@) && now - peers@[addr@].last_seen < 5 {
                d is RecentlySeen
            } else {
                d matches ConnectDecision::Connect(a) && a@ == addr@
            }
        },
{
    match initial_peer {
        None => ConnectDecision::NoPeerConfigured,
        Some(addr) => {
            match peers.get(addr.as_str()) {
                Some(peer) => {
                    let elapsed: i128 = (now as i128) - (peer.last_seen as i128);
                    if elapsed < 5 {
                        ConnectDecision::RecentlySeen
                    } else {
                        ConnectDecision::Connect(addr)
                    }
                },
                None => ConnectDecision::Connect(addr),
            }
        },
    }
}

/// Whether `k` is the address of one of `known`, other than `own`.
pub open spec fn reported_peer(known: Seq<PeerInfo>, own: Seq<char>, k: Seq<char>) -> bool {
    k != own && exists|i: int| 0 <= i < known.len() && #[trigger] known[i].address@ == k
}

/// Adds, at time `now`, every reported peer that is neither `own_address` nor already known.
pub fn add_known_peers<C, F: Fn() -> C>(
    peers: &mut PeerTable<C>,
    own_address: &str,
    known: Vec<PeerInfo>,
    make_client: &F,
    now: i64,
)
    requires
        old(peers).wf(),
        make_client.requires(()),
    ensures
        final(peers).wf(),
        forall|k: Seq<char>| #[trigger] final(peers)@.dom().contains(k)
            <==> (old(peers)@.dom().contains(k) || reported_peer(known@, own_address@, k)),
        forall|k: Seq<char>| #[trigger] old(peers)@.dom().contains(k) ==> final(peers)@[k] == old(peers)@[k],
        forall|k: Seq<char>| #[trigger] final(peers)@.dom().contains(k) && !old(peers)@.dom().contains(k)
            ==> final(peers)@[k].last_seen == now,
{
    let mut i: usize = 0;
    while i < known.len()
        invariant
            peers.wf(),
            i <= known@.len(),
            make_client.requires(()),
            forall|k: Seq<char>| #[trigger] peers@.dom().contains(k)
                <==> (old(peers)@.dom().contains(k) || reported_peer(known@.subrange(0, i as int), own_address@, k)),
            forall|k: Seq<char>| #[trigger] old(peers)@.dom().contains(k) ==> peers@[k] == old(peers)@[k],
            forall|k: Seq<char>| #[trigger] peers@.dom().contains(k) && !old(peers)@.dom().contains(k)
                ==> peers@[k].last_seen == now,
        decreases known@.len() - i,
    {
        let address = &known[i].address;
        let ghost a = known@[i as int].address@;
        if !str_eq(address.as_str(), own_address) && !peers.contains_key(address.as_str()) {
            let client = make_client();
            peers.insert(address.clone(), PeerHealth { client, last_seen: now });
        }
        proof {
            let pre = known@.subrange(0, i as int);
            let post = known@.subrange(0, i + 1);
            assert forall|k: Seq<char>| reported_peer(post, own_address@, k)
                <==> (reported_peer(pre, own_address@, k) || (k == a && a != own_address@)) by {
                if reported_peer(post, own_address@, k) {
                    let j = choose|j: int| 0 <= j < post.len() && #[trigger] post[j].address@ == k;
                    if j < i {
                        assert(pre[j].address@ == k);
                    }
                }
                if reported_peer(pre, own_address@, k) {
                    let j = choose|j: int| 0 <= j < pre.len() && #[trigger] pre[j].address@ == k;
                    assert(post[j].address@ == k);
                }
                if k == a && a != own_address@ {
                    assert(post[i as int].address@ == k);
                }
            }
        }
        i = i + 1;
    }
    assert(known@.subrange(0, i as int) =~= known@);
}

/// Records a successful connection to `peer_addr` at time `now`: the peer joins the table unless
/// it is known already, and so does every peer it reported that is neither us nor known.
pub fn merge_known_peers<C, F: Fn() -> C>(
    peers: &mut PeerTable<C>,
    peer_addr: String,
    own_address: &str,
    known: Vec<PeerInfo>,
    peer_client: C,
    make_client: &F,
    now: i64,
)
    requires
        old(peers).wf(),
        make_client.requires(()),
    ensures
        final(peers).wf(),
        forall|k: Seq<char>| #[trigger] final(peers)@.dom().contains(k)
            <==> (old(peers)@.dom().contains(k) || k == peer_addr@ || reported_peer(known@, own_address@, k)),
        forall|k: Seq<char>| #[trigger] old(peers)@.dom().contains(k) ==> final(peers)@[k] == old(peers)@[k],
        !old(peers)@.dom().contains(peer_addr@) ==> final(peers)@[peer_addr@] == (PeerHealth { client: peer_client, last_seen: now }),
        forall|k: Seq<char>| #[trigger] final(peers)@.dom().contains(k) && !old(peers)@.dom().contains(k)
            ==> final(peers)@[k].last_seen == now,
{
    let ghost key = peer_addr@;
    if !peers.contains_key(peer_addr.as_str()) {
        peers.insert(peer_addr, PeerHealth { client: peer_client, last_seen: now });
    }
    let ghost mid = peers@;
    add_known_peers(peers, own_address, known, make_client, now);
    assert forall|k: Seq<char>| #[trigger] old(peers)@.dom().contains(k)
        implies peers@[k] == old(peers)@[k] by {
        assert(mid.dom().contains(k));
    }
    assert(mid.dom().contains(key));
}

/// Records a successful connection to the configured initial peer at time `now`: the peer's
/// entry is replaced by a fresh one, then every peer it reported that is neither us nor known
/// joins the table.
pub fn accept_initial_peer<C, F: Fn() -> C>(
    peers: &mut PeerTable<C>,
    peer_addr: String,
    own_address: &str,
    known: Vec<PeerInfo>,
    peer_client: C,
    make_client: &F,
    now: i64,
)
    requires
        old(peers).wf(),
        make_client.requires(()),
    ensures
        final(peers).wf(),
        forall|k: Seq<char>| #[trigger] final(peers)@.dom().contains(k)
            <==> (old(peers)@.dom().contains(k) || k == peer_addr@ || reported_peer(known@, own_address@, k)),
        forall|k: Seq<char>| k != peer_addr@ && #[trigger] old(peers)@.dom().contains(k)
            ==> final(peers)@[k] == old(peers)@[k],
        final(peers)@[peer_addr@] == (PeerHealth { client: peer_client, last_seen: now }),
        forall|k: Seq<char>| #[trigger] final(peers)@.dom().contains(k) && !old(peers)@.dom().contains(k)
            ==> final(peers)@[k].last_seen == now,
{
    let ghost key = peer_addr@;
    peers.insert(peer_addr, PeerHealth { client: peer_client, last_seen: now });
    let ghost mid = peers@;
    add_known_peers(peers, own_address, known, make_client, now);
    assert forall|k: Seq<char>| k != key && #[trigger] old(peers)@.dom().contains(k)
        implies peers@[k] == old(peers)@[k] by {
        assert(mid.dom().contains(k));
    }
    assert(mid.dom().contains(key));
}

/// The peers a message from `source` is passed on to: every known peer but the source.
pub fn broadcast_targets<C>(peers: &PeerTable<C>, source: &str) -> (r: Vec<String>)
    requires
        peers.wf(),
    ensures
        string_views(r@).no_duplicates(),
        string_views(r@).to_set() == peers@.dom().remove(source@),
{
    let keys = peers.keys();
    let ghost ks = string_views(keys@);
    let mut r: Vec<String> = Vec::new();
    let mut i: usize = 0;
    while i < keys.len()
        invariant
            i <= keys@.len(),
            ks == string_views(keys@),
            ks.no_duplicates(),
            string_views(r@).no_duplicates(),
            forall|k: Seq<char>| #[trigger] string_views(r@).contains(k)
                <==> (ks.subrange(0, i as int).contains(k) && k != source@),
        decreases keys@.len() - i,
    {
        let ghost rv = string_views(r@);
        let ghost ki = ks[i as int];
        let ghost pre = ks.subrange(0, i as int);
        let ghost post = ks.subrange(0, i + 1);
        proof {
            assert(post =~= pre.push(ki));
            assert(!pre.contains(ki)) by {
                if pre.contains(ki) {
                    let j = choose|j: int| 0 <= j < pre.len() && #[trigger] pre[j] == ki;
                    assert(ks[j] == ks[i as int]);
                }
            }
        }
        if !str_eq(keys[i].as_str(), source) {
            r.push(keys[i].clone());
            proof {
                let rv2 = string_views(r@);
                assert(rv2 =~= rv.push(ki));
                assert(!rv.contains(ki));
                assert forall|a: int, b: int| 0 <= a < rv2.len() && 0 <= b < rv2.len() && a != b
                    implies rv2[a] != rv2[b] by {
                    if a == rv.len() {
                        assert(rv.contains(rv2[b]));
                    } else if b == rv.len() {
                        assert(rv.contains(rv2[a]));
                    }
                }
                assert forall|k: Seq<char>| #[trigger] rv2.contains(k)
                    <==> (post.contains(k) && k != source@) by {
                    if rv2.contains(k) {
                        let j = choose|j: int| 0 <= j < rv2.len() && #[trigger] rv2[j] == k;
                        if j < rv.len() {
                            assert(rv[j] == k);
                            assert(rv.contains(k));
                            let m = choose|m: int| 0 <= m < pre.len() && #[trigger] pre[m] == k;
                            assert(post[m] == k);
                        } else {
                            assert(post[i as int] == k);
                        }
                    }
                    if post.contains(k) && k != source@ {
                        let j = choose|j: int| 0 <= j < post.len() && #[trigger] post[j] == k;
                        if j < i {
                            assert(pre[j] == k);
                            assert(pre.contains(k));
                            assert(rv.contains(k));
                            let m = choose|m: int| 0 <= m < rv.len() && #[trigger] rv[m] == k;
                            assert(rv2[m] == k);
                        } else {
                            assert(rv2[rv.len() as int] == k);
                        }
                    }
                }
            }
        } else {
            proof {
                assert(ki == source@);
                assert forall|k: Seq<char>| #[trigger] rv.contains(k)
                    <==> (post.contains(k) && k != source@) by {
                    if rv.contains(k) {
                        let m = choose|m: int| 0 <= m < pre.len() && #[trigger] pre[m] == k;
                        assert(post[m] == k);
                    }
                    if post.contains(k) && k != source@ {
                        let j = choose|j: int| 0 <= j < post.len() && #[trigger] post[j] == k;
                        assert(j < i);
                        assert(pre[j] == k);
                        assert(pre.contains(k));
                    }
                }
            }
        }
        i = i + 1;
    }
    proof {
        let rv = string_views(r@);
        assert(ks.subrange(0, i as int) =~= ks);
        assert(rv.to_set() =~= peers@.dom().remove(source@));
    }
    r
}

} // verus!
