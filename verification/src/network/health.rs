//! Health of peers: when each was last seen, and what a health check does to the peer table.
use vstd::prelude::*;
use crate::clock::{clock_reading, read_clock};
use crate::string_map::StringMap;

verus! {

/// Health status of a peer.
#[derive(Debug)]
pub struct PeerHealth<C> {
    /// The client used to reach the peer
    pub client: C,
    /// Last time we received a message from this peer (seconds since the Unix epoch)
    pub last_seen: i64,
}

/// The peer table: peer addresses and their health.
pub type PeerTable<C> = StringMap<PeerHealth<C>>;

impl<C> PeerHealth<C> {
    /// Create a new peer health tracker, seen now.
    pub fn new(client: C, name: String) -> (h: Self)
        ensures
            h.client == client,
            clock_reading(h.last_seen),
    {
        let _ = name;
        PeerHealth { client, last_seen: read_clock() }
    }

    /// Update the last seen timestamp to now.
    pub fn update_last_seen(&mut self)
        ensures
            final(self).client == old(self).client,
            clock_reading(final(self).last_seen),
    {
        self.last_seen = read_clock();
    }

    /// Get the last seen timestamp.
    pub fn get_last_seen(&self) -> (t: i64)
        ensures
            t == self.last_seen,
    {
        self.last_seen
    }

    /// Record a failure for this peer: a last-seen time of 0 marks it as unhealthy.
    pub fn record_failure(&mut self)
        ensures
            final(self).client == old(self).client,
            final(self).last_seen == 0,
    {
        self.last_seen = 0;
    }
}

/// Whether a peer is known; an unknown one is "Peer not found".
pub fn check_peer_health<C>(peers: &PeerTable<C>, address: &str) -> (r: Result<(), String>)
    requires
        peers.wf(),
    ensures
        r is Ok <==> peers@.dom().contains(address@),
        r is Err ==> r->Err_0@ == "Peer not found"@,
{
    if !peers.contains_key(address) {
        return Err(String::from_str("Peer not found"));
    }
    Ok(())
}

/// Sets the last-seen time of the peer at `address` to `now`, if it is known.
pub fn mark_seen_at<C>(peers: &mut PeerTable<C>, address: &str, now: i64)
    requires
        old(peers).wf(),
    ensures
        final(peers).wf(),
        old(peers)@.dom().contains(address@) ==> final(peers)@ == old(peers)@.insert(
            address@,
            PeerHealth { client: old(peers)@[address@].client, last_seen: now },
        ),
        !old(peers)@.dom().contains(address@) ==> final(peers)@ == old(peers)@,
{
    if let Some(mut health) = peers.remove(address) {
        health.last_seen = now;
        peers.insert(address.to_owned(), health);
    } else {
        assert(old(peers)@.remove(address@) =~= old(peers)@);
    }
}

/// Applies the outcome of a health check of `address` at time `now`: a peer that answered is
/// seen now, one that did not is dropped, an unknown one changes nothing. The answer says
/// whether survival mode asks for a shutdown, which it does once no peer is left.
pub fn handle_health_check_result_at<C, E>(
    peers: &mut PeerTable<C>,
    address: &str,
    result: Result<(), E>,
    survival_mode: bool,
    now: i64,
) -> (shutdown: bool)
    requires
        old(peers).wf(),
    ensures
        final(peers).wf(),
        old(peers)@.dom().contains(address@) && result is Ok ==> final(peers)@ == old(peers)@.insert(
            address@,
            PeerHealth { client: old(peers)@[address@].client, last_seen: now },
        ),
        old(peers)@.dom().contains(address@) && result is Err ==> final(peers)@ == old(peers)@.remove(address@),
        !old(peers)@.dom().contains(address@) ==> final(peers)@ == old(peers)@,
        shutdown == (survival_mode && final(peers)@.len() == 0),
{
    if peers.contains_key(address) {
        match result {
            Ok(_) => mark_seen_at(peers, address, now),
            Err(_) => {
                peers.remove(address);
            },
        }
    }
    survival_mode && peers.is_empty()
}

/// Applies the outcome of a health check of `address`, at the time of the call.
pub fn handle_health_check_result<C, E>(
    peers: &mut PeerTable<C>,
    address: &str,
    result: Result<(), E>,
    survival_mode: bool,
) -> (shutdown: bool)
    requires
        old(peers).wf(),
    ensures
        final(peers).wf(),
        final(peers)@.dom() == if old(peers)@.dom().contains(address@) && result is Err {
            old(peers)@.dom().remove(address@)
        } else {
            old(peers)@.dom()
        },
        forall|k: Seq<char>| k != address@ && #[trigger] old(peers)@.dom().contains(k)
            ==> final(peers)@[k] == old(peers)@[k],
        final(peers)@.dom().contains(address@) ==> final(peers)@[address@].client == old(peers)@[address@].client,
        old(peers)@.dom().contains(address@) && result is Ok ==> clock_reading(final(peers)@[address@].last_seen),
        shutdown == (survival_mode && final(peers)@.len() == 0),
{
    let now = read_clock();
    let shutdown = handle_health_check_result_at(peers, address, result, survival_mode, now);
    proof {
        if old(peers)@.dom().contains(address@) {
            if result is Ok {
                assert(final(peers)@.dom() =~= old(peers)@.dom());
            } else {
                assert(final(peers)@.dom() =~= old(peers)@.dom().remove(address@));
            }
        }
    }
    shutdown
}

} // verus!
