//! Health endpoints: the node's health summary and heartbeats from peers.
use vstd::prelude::*;
use crate::message::HeartbeatMessage;
use crate::network::health::{PeerHealth, PeerTable};
use crate::network::peer::add_peer_at;
use crate::text::{dec_nat, push_str, string_views, u64_to_decimal};

verus! {

/// The peers counted as active: those for which no failure has been recorded, a recorded
/// failure setting the last-seen time to 0.
pub open spec fn active_peers<C>(peers: Map<Seq<char>, PeerHealth<C>>) -> Set<Seq<char>> {
    peers.dom().filter(|k: Seq<char>| peers[k].last_seen != 0)
}

/// Stamping a peer with a time other than 0 (as a health check that the peer passed, or adding
/// it, does with a clock reading after the epoch) makes it count as active, and changes no other
/// peer's standing.
pub proof fn lemma_stamped_peer_is_active<C>(
    before: Map<Seq<char>, PeerHealth<C>>,
    address: Seq<char>,
    entry: PeerHealth<C>,
)
    requires
        entry.last_seen != 0,
    ensures
        active_peers(before.insert(address, entry)) == active_peers(before).insert(address),
{
    assert(active_peers(before.insert(address, entry)) =~= active_peers(before).insert(address));
}

/// Recording a failure (last seen 0) takes a peer out of the active ones and leaves the others.
pub proof fn lemma_failed_peer_is_inactive<C>(
    before: Map<Seq<char>, PeerHealth<C>>,
    address: Seq<char>,
    entry: PeerHealth<C>,
)
    requires
        entry.last_seen == 0,
    ensures
        active_peers(before.insert(address, entry)) == active_peers(before).remove(address),
{
    assert(active_peers(before.insert(address, entry)) =~= active_peers(before).remove(address));
}

/// The health summary for `active` active peers out of `total`.
pub open spec fn health_summary(active: nat, total: nat) -> Seq<char> {
    "Healthy with "@ + dec_nat(active) + " active peers out of "@ + dec_nat(total)
}

/// Health API module.
pub struct Health;

impl Health {
    /// The health summary: how many of the known peers are active, out of how many.
    pub fn check<C>(peers: &PeerTable<C>) -> (s: String)
        requires
            peers.wf(),
        ensures
            s@ == health_summary(active_peers(peers@).len(), peers@.len()),
    {
        let total = peers.len();
        let keys = peers.keys();
        let ghost ks = string_views(keys@);
        let ghost m = peers@;
        let ghost mut act: Set<Seq<char>> = Set::empty();
        let mut active: usize = 0;
        let mut i: usize = 0;
        while i < keys.len()
            invariant
                peers.wf(),
                m == peers@,
                ks == string_views(keys@),
                ks.no_duplicates(),
                ks.to_set() == m.dom(),
                i <= keys@.len(),
                act.finite(),
                active == act.len(),
                active <= i,
                act == ks.subrange(0, i as int).to_set().filter(|k: Seq<char>| m[k].last_seen != 0),
            decreases keys@.len() - i,
        {
            let ghost k = ks[i as int];
            let ghost pre = ks.subrange(0, i as int);
            proof {
                assert(k == keys@[i as int]@);
                assert(ks.contains(k));
                assert(m.dom().contains(k));
                assert(ks.subrange(0, i + 1) =~= pre.push(k));
                assert forall|x: Seq<char>| #[trigger] pre.push(k).contains(x) <==> (pre.contains(x) || x == k) by {
                    if pre.push(k).contains(x) {
                        let j = choose|j: int| 0 <= j < pre.push(k).len() && #[trigger] pre.push(k)[j] == x;
                        if j < pre.len() {
                            assert(pre[j] == x);
                        }
                    }
                    if pre.contains(x) {
                        let j = choose|j: int| 0 <= j < pre.len() && #[trigger] pre[j] == x;
                        assert(pre.push(k)[j] == x);
                    }
                    if x == k {
                        assert(pre.push(k)[pre.len() as int] == x);
                    }
                }
                assert(pre.push(k).to_set() =~= pre.to_set().insert(k));
                assert(!pre.contains(k)) by {
                    if pre.contains(k) {
                        let j = choose|j: int| 0 <= j < pre.len() && #[trigger] pre[j] == k;
                        assert(ks[j] == ks[i as int]);
                    }
                }
                assert(!act.contains(k));
            }
            match peers.get(keys[i].as_str()) {
                Some(h) => {
                    if h.last_seen != 0 {
                        proof {
                            act = act.insert(k);
                        }
                        active = active + 1;
                    }
                },
                None => {},
            }
            proof {
                assert(act =~= ks.subrange(0, i + 1).to_set().filter(|k: Seq<char>| m[k].last_seen != 0));
            }
            i = i + 1;
        }
        proof {
            assert(ks.subrange(0, i as int) =~= ks);
            assert(act =~= active_peers(m));
        }
        let mut s = String::new();
        push_str(&mut s, "Healthy with ");
        let a = u64_to_decimal(active as u64);
        push_str(&mut s, a.as_str());
        push_str(&mut s, " active peers out of ");
        let t = u64_to_decimal(total as u64);
        push_str(&mut s, t.as_str());
        proof {
            assert(s@ =~= health_summary(active_peers(peers@).len(), peers@.len()));
        }
        s
    }

    /// A heartbeat from a known peer adds, at time `now`, every peer it knows that we do not;
    /// one from an unknown peer is refused and changes nothing.
    pub fn heartbeat<C, F: Fn() -> C>(
        peers: &mut PeerTable<C>,
        heartbeat: HeartbeatMessage,
        make_client: &F,
        now: i64,
    ) -> (r: Result<&'static str, &'static str>)
        requires
            old(peers).wf(),
            make_client.requires(()),
        ensures
            final(peers).wf(),
            !old(peers)@.dom().contains(heartbeat.address@) ==> r is Err && r->Err_0@ == "Peer not found"@
                && final(peers)@ == old(peers)@,
            old(peers)@.dom().contains(heartbeat.address@) ==> {
                &&& r is Ok
                &&& r->Ok_0@ == "Heartbeat acknowledged"@
                &&& forall|k: Seq<char>| #[trigger] final(peers)@.dom().contains(k)
                    <==> (old(peers)@.dom().contains(k) || string_views(heartbeat.known_peers@).contains(k))
                &&& forall|k: Seq<char>| #[trigger] old(peers)@.dom().contains(k) ==> final(peers)@[k] == old(peers)@[k]
                &&& forall|k: Seq<char>| #[trigger] final(peers)@.dom().contains(k) && !old(peers)@.dom().contains(k)
                    ==> final(peers)@[k].last_seen == now
            },
    {
        if !peers.contains_key(heartbeat.address.as_str()) {
            return Err("Peer not found");
        }
        let known = heartbeat.known_peers;
        let ghost addrs = string_views(known@);
        let mut i: usize = 0;
        while i < known.len()
            invariant
                peers.wf(),
                i <= known@.len(),
                addrs == string_views(known@),
                make_client.requires(()),
                forall|k: Seq<char>| #[trigger] peers@.dom().contains(k)
                    <==> (old(peers)@.dom().contains(k) || addrs.subrange(0, i as int).contains(k)),
                forall|k: Seq<char>| #[trigger] old(peers)@.dom().contains(k) ==> peers@[k] == old(peers)@[k],
                forall|k: Seq<char>| #[trigger] peers@.dom().contains(k) && !old(peers)@.dom().contains(k)
                    ==> peers@[k].last_seen == now,
            decreases known@.len() - i,
        {
            let ghost pre = peers@;
            if !peers.contains_key(known[i].as_str()) {
                let client = make_client();
                let _ = add_peer_at(peers, known[i].clone(), client, None, now);
            }
            proof {
                assert forall|k: Seq<char>| #[trigger] old(peers)@.dom().contains(k)
                    implies peers@[k] == old(peers)@[k] by {
                    assert(pre.dom().contains(k));
                }
                assert forall|k: Seq<char>| #[trigger] addrs.subrange(0, i + 1).contains(k)
                    <==> (addrs.subrange(0, i as int).contains(k) || k == addrs[i as int]) by {
                    if addrs.subrange(0, i + 1).contains(k) {
                        let j = choose|j: int| 0 <= j < i + 1 && #[trigger] addrs.subrange(0, i + 1)[j] == k;
                        if j < i {
                            assert(addrs.subrange(0, i as int)[j] == k);
                        }
                    }
                    if addrs.subrange(0, i as int).contains(k) {
                        let j = choose|j: int| 0 <= j < i && #[trigger] addrs.subrange(0, i as int)[j] == k;
                        assert(addrs.subrange(0, i + 1)[j] == k);
                    }
                    if k == addrs[i as int] {
                        assert(addrs.subrange(0, i + 1)[i as int] == k);
                    }
                }
                assert forall|k: Seq<char>| #[trigger] peers@.dom().contains(k) && !old(peers)@.dom().contains(k)
                    implies peers@[k].last_seen == now by {
                    if pre.dom().contains(k) {
                    }
                }
            }
            i = i + 1;
        }
        assert(addrs.subrange(0, i as int) =~= addrs);
        Ok("Heartbeat acknowledged")
    }
}

} // verus!
