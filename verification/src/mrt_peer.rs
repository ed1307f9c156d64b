//! The peers of a collector, as the first record of a file lists them.

use crate::mrt_asn::MrtAsn;
use std::collections::HashMap;
use vstd::prelude::*;

verus! {

/// A peer of the collector: the router that sent the route.
#[derive(Debug)]
pub struct Peer {
    pub peer_bgp_id: String,
    pub peer_ip: String,
    pub peer_asn: MrtAsn,
}

/// What a `Peer` holds.
pub struct PeerView {
    pub peer_bgp_id: Seq<char>,
    pub peer_ip: Seq<char>,
    pub peer_asn: u32,
}

impl View for Peer {
    type V = PeerView;

    open spec fn view(&self) -> PeerView {
        PeerView {
            peer_bgp_id: self.peer_bgp_id@,
            peer_ip: self.peer_ip@,
            peer_asn: self.peer_asn@,
        }
    }
}

impl Clone for Peer {
    fn clone(&self) -> (r: Self)
        ensures
            r@ == self@,
    {
        Peer {
            peer_bgp_id: self.peer_bgp_id.clone(),
            peer_ip: self.peer_ip.clone(),
            peer_asn: self.peer_asn,
        }
    }
}

impl Peer {
    pub fn new(peer_bgp_id: String, peer_ip: String, peer_asn: MrtAsn) -> (r: Self)
        ensures
            r@ == (PeerView { peer_bgp_id: peer_bgp_id@, peer_ip: peer_ip@, peer_asn: peer_asn@ }),
    {
        Peer { peer_bgp_id, peer_ip, peer_asn }
    }
}

/// The peer that the table made of `peers` holds under `id`: the last one
/// listed under it.
pub open spec fn listed_peer(peers: Seq<(u16, Peer)>, id: u16) -> Option<PeerView>
    decreases peers.len(),
{
    if peers.len() == 0 {
        None
    } else if peers.last().0 == id {
        Some(peers.last().1@)
    } else {
        listed_peer(peers.drop_last(), id)
    }
}

/// The peers of one file, by the index under which its routes name them.
#[derive(Debug)]
pub struct PeerTable {
    peer_table: HashMap<u16, Peer>,
}

impl View for PeerTable {
    type V = Map<u16, PeerView>;

    closed spec fn view(&self) -> Map<u16, PeerView> {
        Map::new(|id: u16| self.peer_table@.contains_key(id), |id: u16| self.peer_table@[id]@)
    }
}

impl PeerTable {
    pub fn new(peer_table: HashMap<u16, Peer>) -> (r: Self)
        ensures
            r@.dom() == peer_table@.dom(),
            forall|id: u16| peer_table@.contains_key(id) ==> #[trigger] r@[id] == peer_table@[id]@,
    {
        let r = Self { peer_table };
        assert(r@.dom() =~= peer_table@.dom());
        r
    }

    /// The table of the listed peers. Where an index is listed twice, the
    /// later peer stands.
    pub fn from(peer_table: &Vec<(u16, Peer)>) -> (r: Self)
        ensures
            forall|id: u16| #[trigger] r@.get(id) == listed_peer(peer_table@, id),
    {
        let mut pt: HashMap<u16, Peer> = HashMap::new();
        let mut i: usize = 0;
        while i < peer_table.len()
            invariant
                i <= peer_table.len(),
                forall|id: u16|
                    (#[trigger] pt@.contains_key(id)) == (listed_peer(
                        peer_table@.take(i as int),
                        id,
                    ) is Some),
                forall|id: u16|
                    pt@.contains_key(id) ==> Some((#[trigger] pt@[id])@) == listed_peer(
                        peer_table@.take(i as int),
                        id,
                    ),
            decreases peer_table.len() - i,
        {
            proof {
                assert(peer_table@.take(i + 1).drop_last() == peer_table@.take(i as int));
            }
            let id = peer_table[i].0;
            pt.insert(id, peer_table[i].1.clone());
            i += 1;
        }
        proof {
            assert(peer_table@.take(i as int) == peer_table@);
        }
        Self::new(pt)
    }

    /// Whether the table holds a peer under `id`.
    pub fn has_peer(&self, id: &u16) -> (b: bool)
        ensures
            b == self@.contains_key(*id),
    {
        self.peer_table.contains_key(id)
    }

    /// The peer under `id`.
    pub fn get_peer(&self, id: &u16) -> (peer: &Peer)
        requires
            self@.contains_key(*id),
        ensures
            peer@ == self@[*id],
    {
        let found = self.peer_table.get(id);
        found.unwrap()
    }
}

} // verus!
