//! Peer endpoints: adding, listing and registering peers.
use vstd::prelude::*;
use crate::database::PeerDoc;
use crate::network::address::PeerInfo;
use crate::network::health::{PeerHealth, PeerTable};
use crate::text::{replace, replace_all, starts_with, string_views};
use vstd::string::StrSliceExecFns;

verus! {

/// Peers API module.
pub struct Peers;

/// The addresses of a list of peer infos.
pub open spec fn info_addresses(infos: Seq<PeerInfo>) -> Seq<Seq<char>> {
    infos.map_values(|p: PeerInfo| p.address@)
}

/// Every info of the list has port 0.
pub open spec fn ports_unset(infos: Seq<PeerInfo>) -> bool {
    forall|i: int| 0 <= i < infos.len() ==> #[trigger] infos[i].port == 0
}

/// The address a peer is kept under: with "https://" wherever the address, starting with
/// "http://", said "http://".
pub open spec fn https_address(address: Seq<char>) -> Seq<char> {
    if "http://"@.len() <= address.len() && address.subrange(0, 7) == "http://"@ {
        replace_all(address, "http://"@, "https://"@)
    } else {
        address
    }
}

/// The infos, with port 0, of the peers in the order of `docs`.
fn infos_from_docs(docs: Vec<PeerDoc>) -> (r: Vec<PeerInfo>)
    ensures
        r@.len() == docs@.len(),
        forall|i: int| 0 <= i < docs@.len() ==> #[trigger] r@[i].address@ == docs@[i].address@,
        ports_unset(r@),
{
    let ghost all = docs@;
    let mut rest = docs;
    let mut r: Vec<PeerInfo> = Vec::new();
    let n = rest.len();
    let mut i: usize = 0;
    while i < n
        invariant
            n == all.len(),
            i <= n,
            rest@ == all.skip(i as int),
            r@.len() == i,
            forall|j: int| 0 <= j < i ==> #[trigger] r@[j].address@ == all[j].address@,
            ports_unset(r@),
        decreases n - i,
    {
        let d = rest.remove(0);
        assert(d == all[i as int]);
        r.push(PeerInfo { address: d.address, port: 0 });
        proof {
            assert(rest@ =~= all.skip(i + 1));
        }
        i = i + 1;
    }
    r
}

impl Peers {
    /// Every known peer, with port 0.
    pub fn list_peers<C>(peers: &PeerTable<C>) -> (r: Vec<PeerInfo>)
        requires
            peers.wf(),
        ensures
            info_addresses(r@).no_duplicates(),
            info_addresses(r@).to_set() == peers@.dom(),
            ports_unset(r@),
    {
        let keys = peers.keys();
        let ghost ks = string_views(keys@);
        let mut r: Vec<PeerInfo> = Vec::new();
        let mut i: usize = 0;
        while i < keys.len()
            invariant
                ks == string_views(keys@),
                i <= keys@.len(),
                r@.len() == i,
                forall|j: int| 0 <= j < i ==> #[trigger] r@[j].address@ == ks[j],
                ports_unset(r@),
            decreases keys@.len() - i,
        {
            r.push(PeerInfo { address: keys[i].clone(), port: 0 });
            i = i + 1;
        }
        assert(info_addresses(r@) =~= ks);
        r
    }

    /// Adds a peer announced by another node at time `now`. An empty address is refused; an
    /// address starting with "http://" is kept with "https://" in its place. The peer's entry is
    /// replaced by a fresh one. The answer is the address as kept and every known peer.
    pub fn add_peer<C>(peers: &mut PeerTable<C>, peer: PeerInfo, client: C, now: i64) -> (r: Result<(String, Vec<PeerInfo>), String>)
        requires
            old(peers).wf(),
        ensures
            final(peers).wf(),
            peer.address@.len() == 0 ==> r is Err && r->Err_0@ == "Peer address cannot be empty"@
                && final(peers)@ == old(peers)@,
            peer.address@.len() > 0 ==> {
                &&& r is Ok
                &&& r->Ok_0.0@ == https_address(peer.address@)
                &&& final(peers)@ == old(peers)@.insert(https_address(peer.address@), PeerHealth { client, last_seen: now })
                &&& info_addresses(r->Ok_0.1@).no_duplicates()
                &&& info_addresses(r->Ok_0.1@).to_set() == final(peers)@.dom()
                &&& ports_unset(r->Ok_0.1@)
            },
    {
        if peer.address.as_str().unicode_len() == 0 {
            return Err(String::from_str("Peer address cannot be empty"));
        }
        proof {
            reveal_strlit("http://");
        }
        let peer_addr = if starts_with(peer.address.as_str(), "http://") {
            replace(peer.address.as_str(), "http://", "https://")
        } else {
            peer.address
        };
        let kept = peer_addr.clone();
        peers.insert(peer_addr, PeerHealth { client, last_seen: now });
        let list = Self::list_peers(peers);
        Ok((kept, list))
    }

    /// The active peers read from the database, in that order, with port 0.
    pub fn get_peers(active_peers: Vec<PeerDoc>) -> (r: Vec<PeerInfo>)
        ensures
            r@.len() == active_peers@.len(),
            forall|i: int| 0 <= i < active_peers@.len() ==> #[trigger] r@[i].address@ == active_peers@[i].address@,
            ports_unset(r@),
    {
        infos_from_docs(active_peers)
    }

    /// The answer to a registration: nothing when saving the peer failed, else the active peers
    /// read from the database, with port 0.
    pub fn register_peer(saved: bool, active_peers: Vec<PeerDoc>) -> (r: Vec<PeerInfo>)
        ensures
            !saved ==> r@.len() == 0,
            saved ==> r@.len() == active_peers@.len() && ports_unset(r@)
                && forall|i: int| 0 <= i < active_peers@.len() ==> #[trigger] r@[i].address@ == active_peers@[i].address@,
    {
        if !saved {
            return Vec::new();
        }
        infos_from_docs(active_peers)
    }

    /// The start of the active window: one hour before `now`.
    pub fn active_since(now: i64) -> (since: i64)
        requires
            now >= i64::MIN + 3600,
        ensures
            since == now - 3600,
    {
        now - 3600
    }
}

} // verus!
